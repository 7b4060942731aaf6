//! XML in a byte buffer: a cheap test for whether the buffer resembles XML,
//! and the names of its elements in document order.

use quick_xml::events::Event;
use quick_xml::Reader;
use vstd::prelude::*;
use vstd::slice::slice_subrange;
use vstd::string::StringExecFns;
use vstd::utf8::{decode_utf8, valid_utf8};
use crate::text::{chars_of, contains_char, decoded, is_text, leading_whitespace, trim_start};

verus! {

/// How many bytes of a buffer the test for XML looks at.
pub const XML_SNIFF_LIMIT: usize = 1000;

/// The part of `bytes` that the test for XML looks at.
pub open spec fn sniffed(bytes: Seq<u8>) -> Seq<u8> {
    if bytes.len() <= XML_SNIFF_LIMIT {
        bytes
    } else {
        bytes.take(XML_SNIFF_LIMIT as int)
    }
}

/// Whether `text` resembles the start of an XML document: after leading white
/// space it starts with `<?xml`, or it starts with `<` and `text` holds a `>`.
pub open spec fn resembles_xml(text: Seq<char>) -> bool {
    let trimmed = trim_start(text);
    "<?xml"@.is_prefix_of(trimmed) || ("<"@.is_prefix_of(trimmed) && text.contains('>'))
}

/// Whether `bytes` appear to be XML: the part looked at is valid UTF-8 and
/// its text resembles the start of an XML document.
pub open spec fn likely_xml(bytes: Seq<u8>) -> bool {
    valid_utf8(sniffed(bytes)) && resembles_xml(decode_utf8(sniffed(bytes)))
}

/// Whether `text` resembles the start of an XML document.
fn text_resembles_xml(text: &str) -> (resembles: bool)
    ensures
        resembles == resembles_xml(text@),
{
    let chars = chars_of(text);
    let start = leading_whitespace(&chars);
    let len = chars.len();
    proof {
        reveal_strlit("<?xml");
        reveal_strlit("<");
        let trimmed = chars@.skip(start as int);
        if trimmed.len() >= 1 {
            assert(trimmed.subrange(0, 1)[0] == trimmed[0]);
        }
        if trimmed.len() >= 5 {
            let head = trimmed.subrange(0, 5);
            assert(head[0] == trimmed[0] && head[1] == trimmed[1] && head[2] == trimmed[2]
                && head[3] == trimmed[3] && head[4] == trimmed[4]);
        }
    }
    if start < len && chars[start] == '<' {
        let declared = len - start >= 5 && chars[start + 1] == '?' && chars[start + 2] == 'x'
            && chars[start + 3] == 'm' && chars[start + 4] == 'l';
        declared || contains_char(&chars, '>')
    } else {
        false
    }
}

/// Checks if content appears to be XML.
///
/// Only the first [`XML_SNIFF_LIMIT`] bytes are looked at. This is a cheap
/// test and no validation: a buffer that merely starts like a tag passes it.
pub fn is_likely_xml(content: &[u8]) -> (likely: bool)
    ensures
        likely == likely_xml(content@),
{
    let end = if content.len() <= XML_SNIFF_LIMIT {
        content.len()
    } else {
        XML_SNIFF_LIMIT
    };
    let head = slice_subrange(content, 0, end);
    assert(head@ =~= sniffed(content@));
    match decoded(head) {
        None => false,
        Some(text) => text_resembles_xml(text),
    }
}

/// The empty buffer is printable text, and it does not appear to be XML.
pub proof fn lemma_empty_buffer_is_text_and_not_xml()
    ensures
        is_text(Seq::<u8>::empty()),
        !likely_xml(Seq::<u8>::empty()),
{
    let empty = Seq::<u8>::empty();
    reveal_strlit("<?xml");
    reveal_strlit("<");
}

/// What one read of the tokenizer yields, as far as this library looks at it.
#[derive(Debug, PartialEq, Eq)]
pub enum XmlToken {
    /// A start tag. Holds the tag's name as it stands in the input.
    Start(Vec<u8>),
    /// A self-closing tag. Holds the tag's name as it stands in the input.
    Empty(Vec<u8>),
    /// Any other markup or text: an end tag, character data, a comment, a
    /// declaration, a processing instruction, a reference.
    Other,
    /// The end of the input.
    Eof,
}

/// Mathematical value of one read: a token, or the diagnostic of a failure.
pub enum XmlOutcome {
    Start(Seq<u8>),
    Empty(Seq<u8>),
    Other,
    Eof,
    Failure(Seq<char>),
}

impl XmlOutcome {
    /// Whether reading stops here: at the end of the input, or at a failure.
    pub open spec fn is_last(self) -> bool {
        self is Eof || self is Failure
    }
}

impl View for XmlToken {
    type V = XmlOutcome;

    open spec fn view(&self) -> XmlOutcome {
        match self {
            XmlToken::Start(name) => XmlOutcome::Start(name@),
            XmlToken::Empty(name) => XmlOutcome::Empty(name@),
            XmlToken::Other => XmlOutcome::Other,
            XmlToken::Eof => XmlOutcome::Eof,
        }
    }
}

/// What one read hands back: a token, or the diagnostic of a failure.
pub type XmlRead = Result<XmlToken, String>;

/// Mathematical value of what a read hands back.
pub open spec fn outcome_of(read: XmlRead) -> XmlOutcome {
    match read {
        Ok(token) => token@,
        Err(diagnostic) => XmlOutcome::Failure(diagnostic@),
    }
}

/// Mathematical value of a run of reads.
pub open spec fn run_view(run: Seq<XmlRead>) -> Seq<XmlOutcome> {
    run.map_values(|read: XmlRead| outcome_of(read))
}

/// Whether `stream` is a whole run of reads: it is not empty, it ends where
/// reading stops, and reading stops nowhere before.
pub open spec fn is_complete(stream: Seq<XmlOutcome>) -> bool {
    &&& stream.len() > 0
    &&& stream.last().is_last()
    &&& forall|i: int| 0 <= i < stream.len() - 1 ==> !(#[trigger] stream[i]).is_last()
}

/// Why the element names of a buffer could not be listed.
#[derive(Debug, PartialEq, Eq)]
pub enum ParseError {
    /// The tokenizer found malformed markup. Holds its diagnostic.
    Malformed(String),
    /// The name of a tag is not valid UTF-8. Holds the name's bytes.
    NameNotUtf8(Vec<u8>),
}

/// Mathematical value of a [`ParseError`].
pub enum ParseErrorView {
    Malformed(Seq<char>),
    NameNotUtf8(Seq<u8>),
}

impl View for ParseError {
    type V = ParseErrorView;

    open spec fn view(&self) -> ParseErrorView {
        match self {
            ParseError::Malformed(diagnostic) => ParseErrorView::Malformed(diagnostic@),
            ParseError::NameNotUtf8(name) => ParseErrorView::NameNotUtf8(name@),
        }
    }
}

impl ParseErrorView {
    /// The text shown for this failure: the tokenizer's diagnostic, or a
    /// sentence on the name.
    pub open spec fn message(self) -> Seq<char> {
        match self {
            ParseErrorView::Malformed(diagnostic) => diagnostic,
            ParseErrorView::NameNotUtf8(_) => "tag name is not valid UTF-8"@,
        }
    }
}

impl ParseError {
    /// The text to show the user for this failure.
    pub fn message(&self) -> (text: String)
        ensures
            text@ == self@.message(),
    {
        match self {
            ParseError::Malformed(diagnostic) => diagnostic.clone(),
            ParseError::NameNotUtf8(_) => String::from_str("tag name is not valid UTF-8"),
        }
    }
}

/// The bytes of the name that `outcome` adds to a listing: those of a start
/// tag and of a self-closing tag, and of nothing else.
pub open spec fn tag_name(outcome: XmlOutcome) -> Option<Seq<u8>> {
    match outcome {
        XmlOutcome::Start(name) => Some(name),
        XmlOutcome::Empty(name) => Some(name),
        _ => None,
    }
}

/// `names` in front of the names in `rest`; the failure in `rest` if it holds one.
pub open spec fn names_then(
    names: Seq<Seq<char>>,
    rest: Result<Seq<Seq<char>>, ParseErrorView>,
) -> Result<Seq<Seq<char>>, ParseErrorView> {
    match rest {
        Ok(more) => Ok(names + more),
        Err(error) => Err(error),
    }
}

/// The listing of a run of reads: the names of its start tags and
/// self-closing tags as text, in the order of the reads, up to the end of the
/// input. The first read that fails, or that holds a name that is not valid
/// UTF-8, makes the whole listing fail.
pub open spec fn element_names(stream: Seq<XmlOutcome>) -> Result<Seq<Seq<char>>, ParseErrorView>
    decreases stream.len(),
{
    if stream.len() == 0 {
        Ok(Seq::empty())
    } else {
        match stream[0] {
            XmlOutcome::Failure(diagnostic) => Err(ParseErrorView::Malformed(diagnostic)),
            XmlOutcome::Eof => Ok(Seq::empty()),
            outcome => match tag_name(outcome) {
                None => element_names(stream.drop_first()),
                Some(name) => if valid_utf8(name) {
                    names_then(seq![decode_utf8(name)], element_names(stream.drop_first()))
                } else {
                    Err(ParseErrorView::NameNotUtf8(name))
                },
            },
        }
    }
}

/// Mathematical value of a listing or its failure.
pub open spec fn listing_view(listing: Result<Vec<String>, ParseError>) -> Result<
    Seq<Seq<char>>,
    ParseErrorView,
> {
    match listing {
        Ok(names) => Ok(names.deep_view()),
        Err(error) => Err(error@),
    }
}

/// The tokenizer of `quick_xml`. Nothing is known of what is inside it.
#[verifier::external_type_specification]
#[verifier::external_body]
#[verifier::reject_recursive_types(R)]
pub struct ExReader<R>(quick_xml::Reader<R>);

/// The run of reads that the tokenizer of `quick_xml` makes over `input`,
/// with white space around character data trimmed or not: what each call of
/// `Reader::read_event_into` yields, in order, up to and including the first
/// end of input or failure. It depends on the bytes and on the setting alone.
pub uninterp spec fn xml_stream(input: Seq<u8>, trim_text: bool) -> Seq<XmlOutcome>;

/// The run of reads that `reader` has before it: what its next reads yield,
/// in order, up to and including the first end of input or failure.
pub uninterp spec fn pending(reader: Reader<&[u8]>) -> Seq<XmlOutcome>;

/// Calls `quick_xml::Reader::from_reader` on `content`, and
/// `Config::trim_text` on the new reader's configuration. Taken on trust from
/// the source of `quick_xml`, not proved: the reader has the whole run over
/// `content` before it; that run is complete, since each read but the last
/// takes at least one byte of the input; and over no bytes at all it is the
/// end of the input and nothing else.
#[verifier::external_body]
fn open_reader(content: &[u8], trim_text: bool) -> (reader: Reader<&[u8]>)
    ensures
        pending(reader) == xml_stream(content@, trim_text),
        is_complete(pending(reader)),
        content@.len() == 0 ==> pending(reader) == seq![XmlOutcome::Eof],
{
    let mut reader = Reader::from_reader(content);
    reader.config_mut().trim_text(trim_text);
    reader
}

/// Calls `quick_xml::Reader::read_event_into`, with a buffer of its own.
/// Taken on trust from the source of `quick_xml`, not proved: the read yields
/// the first outcome that the reader had before it, and where more than that
/// one were before it, the others are before it now. A start tag and a
/// self-closing tag come with the bytes of their name (`BytesStart::name`), a
/// failure with its text (`Error`'s `Display`).
#[verifier::external_body]
fn read_token(reader: &mut Reader<&[u8]>) -> (read: XmlRead)
    ensures
        pending(*old(reader)).len() > 0 ==> outcome_of(read) == pending(*old(reader))[0],
        pending(*old(reader)).len() > 1 ==> pending(*final(reader)) == pending(
            *old(reader),
        ).drop_first(),
{
    let mut buffer = Vec::new();
    match reader.read_event_into(&mut buffer) {
        Ok(Event::Start(tag)) => Ok(XmlToken::Start(tag.name().as_ref().to_vec())),
        Ok(Event::Empty(tag)) => Ok(XmlToken::Empty(tag.name().as_ref().to_vec())),
        Ok(Event::Eof) => Ok(XmlToken::Eof),
        Ok(_) => Ok(XmlToken::Other),
        Err(error) => Err(error.to_string()),
    }
}

impl XmlToken {
    /// Whether this token is the end of the input.
    pub fn is_eof(&self) -> (eof: bool)
        ensures
            eof == (self@ is Eof),
    {
        match self {
            XmlToken::Eof => true,
            _ => false,
        }
    }
}

/// The element name that `token` adds to a listing: the name of a start tag
/// or of a self-closing tag, as text. Other tokens add none. A name that is
/// not valid UTF-8 is an error, which holds the name's bytes.
pub fn element_name(token: &XmlToken) -> (name: Result<Option<String>, ParseError>)
    ensures
        match tag_name(token@) {
            None => name matches Ok(None),
            Some(bytes) => if valid_utf8(bytes) {
                name matches Ok(Some(text)) && text@ == decode_utf8(bytes)
            } else {
                name matches Err(error) && error@ == ParseErrorView::NameNotUtf8(bytes)
            },
        },
{
    match token {
        XmlToken::Start(bytes) | XmlToken::Empty(bytes) => match decoded(bytes.as_slice()) {
            Some(text) => Ok(Some(String::from_str(text))),
            None => Err(ParseError::NameNotUtf8(bytes.clone())),
        },
        _ => Ok(None),
    }
}

/// Whether reading stops at `read`: at the end of the input, or at a failure.
fn stops_at(read: &XmlRead) -> (stops: bool)
    ensures
        stops == outcome_of(*read).is_last(),
{
    match read {
        Ok(token) => token.is_eof(),
        Err(_) => true,
    }
}

/// Reads `content` with the tokenizer, white space around character data
/// trimmed, and hands back the whole run: every read up to and including the
/// first end of input or failure. The run over the empty buffer is the end
/// of the input alone.
pub fn read_run(content: &[u8]) -> (run: Vec<XmlRead>)
    ensures
        run_view(run@) == xml_stream(content@, true),
        content@.len() == 0 ==> run_view(run@) == seq![XmlOutcome::Eof],
{
    let mut reader = open_reader(content, true);
    let mut run: Vec<XmlRead> = Vec::new();
    loop
        invariant
            is_complete(pending(reader)),
            xml_stream(content@, true) == run_view(run@) + pending(reader),
            content@.len() == 0 ==> xml_stream(content@, true) == seq![XmlOutcome::Eof],
        decreases pending(reader).len(),
    {
        let read = read_token(&mut reader);
        let stops = stops_at(&read);
        run.push(read);
        if stops {
            return run;
        }
    }
}

/// Lists the element names of a run of reads: the names of its start tags
/// and self-closing tags, as text, in the order of the reads. Reads that
/// follow the end of the input are not looked at.
///
/// Fails at the first read that is a failure, with its diagnostic, and at
/// the first tag whose name is not valid UTF-8, whichever comes first.
pub fn element_names_of_run(run: &[XmlRead]) -> (listing: Result<Vec<String>, ParseError>)
    ensures
        listing_view(listing) == element_names(run_view(run@)),
{
    let mut names: Vec<String> = Vec::new();
    let mut at: usize = 0;
    assert(run_view(run@).skip(0) =~= run_view(run@));
    while at < run.len()
        invariant
            at <= run.len(),
            element_names(run_view(run@)) == names_then(
                names.deep_view(),
                element_names(run_view(run@).skip(at as int)),
            ),
        decreases run.len() - at,
    {
        let ghost listed = names.deep_view();
        let ghost rest = run_view(run@).skip(at as int);
        proof {
            assert(rest.drop_first() =~= run_view(run@).skip(at + 1));
        }
        match &run[at] {
            Err(diagnostic) => {
                return Err(ParseError::Malformed(diagnostic.clone()));
            },
            Ok(token) => {
                if token.is_eof() {
                    return Ok(names);
                }
                match element_name(token) {
                    Err(error) => {
                        return Err(error);
                    },
                    Ok(Some(name)) => {
                        names.push(name);
                        proof {
                            let added = seq![name@];
                            assert(names.deep_view() =~= listed + added);
                            match element_names(rest.drop_first()) {
                                Ok(more) => {
                                    assert(listed + (added + more) =~= (listed + added) + more);
                                },
                                Err(_) => {},
                            }
                        }
                    },
                    Ok(None) => {},
                }
            },
        }
        at += 1;
    }
    Ok(names)
}

/// Lists the names of the elements of `content`, in document order and with
/// repetitions: one name for every start tag and every self-closing tag that
/// the tokenizer reads before the end of the input. End tags, character data,
/// comments and the rest add nothing.
///
/// Fails where the tokenizer fails, with its diagnostic, and where a tag's
/// name is not valid UTF-8. Nothing beyond what the tokenizer checks is
/// checked: elements that are still open at the end of the input are listed
/// like the others. The empty buffer has no names.
pub fn get_all_xml_element_names(content: &[u8]) -> (listing: Result<Vec<String>, ParseError>)
    ensures
        listing_view(listing) == element_names(xml_stream(content@, true)),
        content@.len() == 0 ==> listing_view(listing) == Ok::<_, ParseErrorView>(
            Seq::<Seq<char>>::empty(),
        ),
{
    let run = read_run(content);
    element_names_of_run(run.as_slice())
}

/// Listing the element names of one buffer twice gives one result: whatever
/// two runs of [`get_all_xml_element_names`] hand back for the same bytes is
/// the same listing, or the same failure.
pub proof fn lemma_listing_is_repeatable(
    content: Seq<u8>,
    first: Result<Vec<String>, ParseError>,
    second: Result<Vec<String>, ParseError>,
)
    ensures
        ({
            let listed = element_names(xml_stream(content, true));
            listing_view(first) == listed && listing_view(second) == listed ==> {
                &&& listing_view(first) == listing_view(second)
                &&& first is Ok <==> second is Ok
                &&& first matches Ok(names) ==> second matches Ok(again) && names.deep_view()
                    == again.deep_view()
            }
        }),
{
}

} // verus!
