//! Format detection: which of the two wire formats a document is written in.
//!
//! A document is scanned as a sequence of XML tokens up to its first element
//! tag. The name of that tag decides the format.

use vstd::prelude::*;

verus! {

/// One XML token, as far as format detection reads it.
#[derive(Debug, Clone, PartialEq, Eq)]
pub enum Token {
    /// The tag that opens an element, with the element's name.
    Start(Vec<u8>),
    /// The self-closing tag of an empty element, with the element's name.
    Empty(Vec<u8>),
    /// Text, a comment, a declaration, a closing tag and the like.
    Other,
    /// The end of the input.
    End,
    /// The input is malformed at this point.
    Failed,
}

/// Mathematical model of a [`Token`].
pub enum TokenView {
    Start(Seq<u8>),
    Empty(Seq<u8>),
    Other,
    End,
    Failed,
}

impl View for Token {
    type V = TokenView;

    open spec fn view(&self) -> TokenView {
        match self {
            Token::Start(name) => TokenView::Start(name@),
            Token::Empty(name) => TokenView::Empty(name@),
            Token::Other => TokenView::Other,
            Token::End => TokenView::End,
            Token::Failed => TokenView::Failed,
        }
    }
}

/// The two wire formats.
#[derive(Debug, Clone, Copy, PartialEq, Eq, Structural)]
pub enum FeedKind {
    Rss,
    Atom,
}

/// A `quick_xml::Reader` over a text held in memory. The verifier sees
/// nothing of it but the tokens it has yet to yield.
#[verifier::external_body]
pub struct TokenReader<'a> {
    inner: quick_xml::Reader<&'a [u8]>,
}

/// The tokens that a fresh `quick_xml` reader yields for a text, up to and
/// including the end of input or the first failure.
pub uninterp spec fn xml_tokens(text: Seq<char>) -> Seq<TokenView>;

/// The tokens that a reader has yet to yield, up to and including the end of
/// input or the first failure; empty once one of the two has been yielded.
pub uninterp spec fn pending_tokens(reader: TokenReader) -> Seq<TokenView>;

/// Calls `quick_xml::Reader::from_str`. Trusted: the reader has all the
/// tokens of the text yet to yield.
#[verifier::external_body]
fn open_reader<'a>(text: &'a str) -> (reader: TokenReader<'a>)
    ensures
        pending_tokens(reader) == xml_tokens(text@),
{
    TokenReader { inner: quick_xml::Reader::from_str(text) }
}

/// Calls `quick_xml::Reader::read_event` with a buffer of its own. Trusted:
/// the reader yields the first of its pending tokens and keeps the rest.
/// Once the end of input or a failure has been yielded, it yields the end of
/// input ever after.
#[verifier::external_body]
fn next_token(reader: &mut TokenReader) -> (token: Token)
    ensures
        pending_tokens(*old(reader)).len() > 0 ==> token@ == pending_tokens(*old(reader)).first()
            && pending_tokens(*final(reader)) == pending_tokens(*old(reader)).drop_first(),
        pending_tokens(*old(reader)).len() == 0 ==> token@ is End && pending_tokens(
            *final(reader),
        ).len() == 0,
{
    let mut buf = vec![];
    match reader.inner.read_event(&mut buf) {
        Ok(quick_xml::events::Event::Start(tag)) => Token::Start(tag.name().to_vec()),
        Ok(quick_xml::events::Event::Empty(tag)) => Token::Empty(tag.name().to_vec()),
        Ok(quick_xml::events::Event::Eof) => Token::End,
        Ok(_) => Token::Other,
        Err(_) => Token::Failed,
    }
}

/// The name of the first element tag among `tokens`, if one comes before the
/// end of input and before any failure. An opening tag and a self-closing
/// tag both count: either is the start of the document's first element.
pub open spec fn first_tag(tokens: Seq<TokenView>) -> Option<Seq<u8>>
    decreases tokens.len(),
{
    if tokens.len() == 0 {
        None
    } else {
        match tokens.first() {
            TokenView::Start(name) => Some(name),
            TokenView::Empty(name) => Some(name),
            TokenView::Other => first_tag(tokens.drop_first()),
            TokenView::End => None,
            TokenView::Failed => None,
        }
    }
}

/// The bytes of the tag name `rss`.
pub open spec fn rss_tag() -> Seq<u8> {
    seq![0x72u8, 0x73u8, 0x73u8]
}

/// The bytes of the tag name `feed`.
pub open spec fn atom_tag() -> Seq<u8> {
    seq![0x66u8, 0x65u8, 0x65u8, 0x64u8]
}

/// The format that a top-level tag name announces.
pub open spec fn kind_of_tag(name: Seq<u8>) -> Option<FeedKind> {
    if name == rss_tag() {
        Some(FeedKind::Rss)
    } else if name == atom_tag() {
        Some(FeedKind::Atom)
    } else {
        None
    }
}

/// The format that a token sequence announces: that of its first element
/// tag. `None` where there is no such tag or it is neither `rss` nor `feed`.
pub open spec fn kind_of_tokens(tokens: Seq<TokenView>) -> Option<FeedKind> {
    match first_tag(tokens) {
        Some(name) => kind_of_tag(name),
        None => None,
    }
}

/// The first element tag is the first token that is not text, a comment or
/// the like, provided that token is the tag of an element.
pub proof fn lemma_first_tag_at(tokens: Seq<TokenView>, i: int)
    requires
        0 <= i < tokens.len(),
        forall|j: int| 0 <= j < i ==> #[trigger] tokens[j] is Other,
    ensures
        first_tag(tokens) == match tokens[i] {
            TokenView::Start(name) => Some(name),
            TokenView::Empty(name) => Some(name),
            TokenView::Other => first_tag(tokens.skip(i + 1)),
            TokenView::End => None,
            TokenView::Failed => None,
        },
    decreases i,
{
    if i == 0 {
        assert(tokens.drop_first() =~= tokens.skip(1));
    } else {
        let rest = tokens.drop_first();
        assert(tokens[0] is Other);
        assert forall|j: int| 0 <= j < i - 1 implies #[trigger] rest[j] is Other by {
            assert(rest[j] == tokens[j + 1]);
        }
        lemma_first_tag_at(rest, i - 1);
        assert(rest[i - 1] == tokens[i]);
        assert(rest.skip(i) =~= tokens.skip(i + 1));
    }
}

/// Decides the format from the name of a document's first element tag:
/// `rss` is RSS, `feed` is Atom, anything else is neither.
pub fn classify_tag(name: &[u8]) -> (kind: Option<FeedKind>)
    ensures
        kind == kind_of_tag(name@),
{
    if name.len() == 3 && name[0] == 0x72 && name[1] == 0x73 && name[2] == 0x73 {
        assert(name@ =~= rss_tag());
        Some(FeedKind::Rss)
    } else if name.len() == 4 && name[0] == 0x66 && name[1] == 0x65 && name[2] == 0x65 && name[3]
        == 0x64 {
        assert(name@ =~= atom_tag());
        Some(FeedKind::Atom)
    } else {
        assert(name@ != rss_tag()) by {
            if name@ == rss_tag() {
                assert(name@.len() == 3 && name@[0] == 0x72 && name@[1] == 0x73 && name@[2] == 0x73);
            }
        }
        assert(name@ != atom_tag()) by {
            if name@ == atom_tag() {
                assert(name@.len() == 4 && name@[0] == 0x66 && name@[1] == 0x65 && name@[2] == 0x65
                    && name@[3] == 0x64);
            }
        }
        None
    }
}

/// Reads tokens up to the first element tag and gives its name.
fn first_tag_name(reader: &mut TokenReader) -> (name: Option<Vec<u8>>)
    ensures
        match name {
            Some(bytes) => first_tag(pending_tokens(*old(reader))) == Some(bytes@),
            None => first_tag(pending_tokens(*old(reader))) is None,
        },
{
    loop
        invariant
            first_tag(pending_tokens(*old(reader))) == first_tag(pending_tokens(*reader)),
        decreases pending_tokens(*reader).len(),
    {
        match next_token(reader) {
            Token::Start(name) => {
                return Some(name);
            },
            Token::Empty(name) => {
                return Some(name);
            },
            Token::Other => {},
            Token::End => {
                return None;
            },
            Token::Failed => {
                return None;
            },
        }
    }
}

/// Scans a text for its first element tag and decides the format by it.
pub fn sniff(text: &str) -> (kind: Option<FeedKind>)
    ensures
        kind == kind_of_tokens(xml_tokens(text@)),
{
    let mut reader = open_reader(text);
    match first_tag_name(&mut reader) {
        Some(name) => classify_tag(name.as_slice()),
        None => None,
    }
}

} // verus!
