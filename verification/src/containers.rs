use vstd::prelude::*;
use vstd::string::{StringExecFns, StringSliceAdditionalSpecFns};
use vstd::utf8::{decode_utf8, valid_utf8};

verus! {

/// Why bytes were refused where text is required.
#[derive(Clone, Copy, Debug, PartialEq, Eq, Structural)]
pub enum EncodingError {
    /// The bytes are not well-formed UTF-8.
    InvalidUtf8,
}

/// `core::str::from_utf8`: the bytes seen as text where they are well-formed
/// UTF-8, and nothing where they are not.
#[verifier::external_body]
pub(crate) fn utf8_text(bytes: &[u8]) -> (text: Option<&str>)
    ensures
        text is Some <==> valid_utf8(bytes@),
        text matches Some(seen) ==> seen.spec_bytes() == bytes@,
{
    core::str::from_utf8(bytes).ok()
}

/// Says whether `bytes` may cross the boundary as text.
pub fn check_text(bytes: &[u8]) -> (checked: Result<(), EncodingError>)
    ensures
        checked is Ok <==> valid_utf8(bytes@),
        checked is Err ==> checked == Err::<(), EncodingError>(EncodingError::InvalidUtf8),
{
    match utf8_text(bytes) {
        Some(_) => Ok(()),
        None => Err(EncodingError::InvalidUtf8),
    }
}

/// An array that the foreign side made and handed over. The container owns
/// it from then on and shows it as a slice.
#[derive(Debug)]
pub struct SliceContainer<T> {
    pub items: Vec<T>,
}

impl<T> View for SliceContainer<T> {
    type V = Seq<T>;

    open spec fn view(&self) -> Seq<T> {
        self.items@
    }
}

impl<T> SliceContainer<T> {
    /// The elements, in the order in which they were handed over.
    pub fn as_slice(&self) -> (elements: &[T])
        ensures
            elements@ == self@,
    {
        self.items.as_slice()
    }
}

/// A text that the foreign side made and handed over. The container owns the
/// bytes from then on and shows them as text.
#[derive(Debug)]
pub struct StrContainer {
    data: Vec<u8>,
}

impl View for StrContainer {
    type V = Seq<char>;

    closed spec fn view(&self) -> Seq<char> {
        decode_utf8(self.data@)
    }
}

impl StrContainer {
    #[verifier::type_invariant]
    spec fn holds_text(&self) -> bool {
        valid_utf8(self.data@)
    }

    /// The bytes that were handed over.
    pub closed spec fn bytes(&self) -> Seq<u8> {
        self.data@
    }

    /// Takes over `data` where it is text, and refuses it where it is not.
    pub fn from_bytes(data: Vec<u8>) -> (made: Result<StrContainer, EncodingError>)
        ensures
            made is Ok <==> valid_utf8(data@),
            made matches Ok(text) ==> text.bytes() == data@ && text@ == decode_utf8(data@),
            made is Err ==> made == Err::<StrContainer, EncodingError>(EncodingError::InvalidUtf8),
    {
        match check_text(data.as_slice()) {
            Ok(()) => Ok(StrContainer { data }),
            Err(refused) => Err(refused),
        }
    }

    /// The text, read in place.
    pub fn as_str(&self) -> (text: &str)
        ensures
            text@ == self@,
            text.spec_bytes() == self.bytes(),
    {
        proof {
            use_type_invariant(self);
        }
        match utf8_text(self.data.as_slice()) {
            Some(text) => {
                proof {
                    vstd::utf8::encode_utf8_decode_utf8(text@);
                }
                text
            },
            None => vstd::pervasive::unreached(),
        }
    }
}

/// A diagnostic: where in which file, how long, and what it says.
#[derive(Debug)]
pub struct Message {
    pub file: StrContainer,
    pub line: isize,
    pub column: isize,
    pub length: isize,
    pub text: StrContainer,
}

/// What the `Display` of `isize` writes for `n`: its decimal digits, after a
/// minus sign where it is negative.
pub uninterp spec fn decimal_text(n: isize) -> Seq<char>;

/// `isize::to_string`: the number as `Display` writes it.
#[verifier::external_body]
fn decimal(n: isize) -> (text: String)
    ensures
        text@ == decimal_text(n),
{
    n.to_string()
}

/// A diagnostic on one line: what it says, then in square brackets the file,
/// the line and the column, with colons between them.
pub open spec fn message_line(
    text: Seq<char>,
    file: Seq<char>,
    line: Seq<char>,
    column: Seq<char>,
) -> Seq<char> {
    text + seq![' ', '['] + file + seq![':'] + line + seq![':'] + column + seq![']']
}

/// Lays a diagnostic out on one line, with the line and the column as they
/// are to be shown.
pub fn format_message(text: &str, file: &str, line: &str, column: &str) -> (out: String)
    ensures
        out@ == message_line(text@, file@, line@, column@),
{
    proof {
        reveal_strlit(" [");
        reveal_strlit(":");
        reveal_strlit("]");
        assert(" ["@ =~= seq![' ', '[']);
        assert(":"@ =~= seq![':']);
        assert("]"@ =~= seq![']']);
    }
    let mut out = String::from_str(text);
    out.append(" [");
    out.append(file);
    out.append(":");
    out.append(line);
    out.append(":");
    out.append(column);
    out.append("]");
    out
}

impl Message {
    /// This diagnostic on one line, the line and the column in decimal.
    pub fn to_text(&self) -> (out: String)
        ensures
            out@ == message_line(
                self.text@,
                self.file@,
                decimal_text(self.line),
                decimal_text(self.column),
            ),
    {
        let line = decimal(self.line);
        let column = decimal(self.column);
        format_message(self.text.as_str(), self.file.as_str(), line.as_str(), column.as_str())
    }
}

/// A file that a build produced: where it goes and what it holds.
#[derive(Debug)]
pub struct OutputFile {
    pub path: StrContainer,
    pub data: StrContainer,
}

/// What a build hands back.
#[derive(Debug)]
pub struct BuildResult {
    pub output_files: SliceContainer<OutputFile>,
    pub errors: SliceContainer<Message>,
    pub warnings: SliceContainer<Message>,
}

/// What a transform hands back.
#[derive(Debug)]
pub struct TransformResult {
    pub code: StrContainer,
    pub map: StrContainer,
    pub errors: SliceContainer<Message>,
    pub warnings: SliceContainer<Message>,
}

} // verus!
