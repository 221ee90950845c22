//! The image that is staged in device memory, built from the caller's code.
//!
//! Layout of the image, by byte offset:
//!
//! | from | to | content |
//! |---|---|---|
//! | 0 | 4 | `BUILT_PAYLOAD_MAX_LENGTH`, little-endian |
//! | 4 | 680 | zeros |
//! | 680 | 804 | the relocation stub |
//! | 804 | 4328 | zeros |
//! | 4328 | 20712 | the first `PADDING_SIZE_2` bytes of the code |
//! | 20712 | 29352 | `REPEAT_COUNT` times `RCM_PAYLOAD_ADDR`, little-endian |
//! | 29352 | 12968 + n | the rest of the code (`n` is its whole length) |
//! | 12968 + n | next multiple of 4096 | zeros, at least one |

use std::rc::Rc;
use vstd::prelude::*;
use vstd::slice::slice_subrange;
use vstd::string::*;

use crate::intermezzo::{intermezzo_bytes, INTERMEZZO, INTERMEZZO_LENGTH};
use crate::text::{append_decimal, decimal};

verus! {

/// The length that the stub on the device is told was staged, and the upper
/// bound of an image's length.
pub const BUILT_PAYLOAD_MAX_LENGTH: usize = 0x30298;

/// The min length of the provided code (inclusive).
pub const PAYLOAD_MIN_LENGTH: usize = PADDING_SIZE_2;

/// The max length of the provided code (exclusive).
pub const PAYLOAD_MAX_LENGTH: usize = 183_640;

/// Address at which the stack spray starts.
pub const STACK_SPRAY_START: usize = 0x4001_4E40;

/// Address at which the stack spray ends.
pub const STACK_SPRAY_END: usize = 0x4001_7000;

/// Address at which the caller's code starts.
pub const PAYLOAD_START_ADDR: usize = 0x4001_0E40;

/// Address at which the part of the image behind its header is loaded.
pub const RCM_PAYLOAD_ADDR: usize = 0x4001_0000;

/// Length of the image's header: what precedes the stub.
pub const HEADER_LENGTH: usize = 680;

/// Zeros between the stub and the caller's code.
pub const PADDING_SIZE_1: usize = PAYLOAD_START_ADDR - (RCM_PAYLOAD_ADDR + INTERMEZZO_LENGTH);

/// Length of the code that stands before the stack spray.
pub const PADDING_SIZE_2: usize = STACK_SPRAY_START - PAYLOAD_START_ADDR;

/// Number of words in the stack spray.
pub const REPEAT_COUNT: usize = (STACK_SPRAY_END - STACK_SPRAY_START) / 4;

/// The image's length is a multiple of this.
pub const BLOCK_SIZE: usize = 0x1000;

/// Offset in the image of the caller's code.
pub const CODE_OFFSET: usize = HEADER_LENGTH + INTERMEZZO_LENGTH + PADDING_SIZE_1;

/// Offset in the image of the stack spray.
pub const SPRAY_OFFSET: usize = CODE_OFFSET + PADDING_SIZE_2;

/// Offset in the image of the code that follows the stack spray.
pub const TAIL_OFFSET: usize = SPRAY_OFFSET + 4 * REPEAT_COUNT;

/// `n` zero bytes.
pub open spec fn zeros(n: nat) -> Seq<u8> {
    Seq::new(n, |i: int| 0u8)
}

/// The four bytes of `x`, least significant first.
pub open spec fn le_bytes(x: u32) -> Seq<u8> {
    seq![
        (x % 256) as u8,
        (x / 256 % 256) as u8,
        (x / 65536 % 256) as u8,
        (x / 16777216) as u8,
    ]
}

/// The number that four bytes stand for, least significant first.
pub open spec fn le_word(bytes: Seq<u8>) -> int {
    bytes[0] + 256 * bytes[1] + 65536 * bytes[2] + 16777216 * bytes[3]
}

/// `words` times the address `RCM_PAYLOAD_ADDR`, little-endian.
pub open spec fn spray(words: nat) -> Seq<u8> {
    Seq::new(4 * words, |i: int| le_bytes(RCM_PAYLOAD_ADDR as u32)[i % 4])
}

/// Whether code of this length can be built into an image.
pub open spec fn valid_length(len: nat) -> bool {
    PAYLOAD_MIN_LENGTH <= len < PAYLOAD_MAX_LENGTH
}

/// The number of zeros that bring `len` to the next multiple of `BLOCK_SIZE`:
/// a whole block where `len` is a multiple already.
pub open spec fn padding_length(len: nat) -> nat {
    (BLOCK_SIZE - len % (BLOCK_SIZE as nat)) as nat
}

/// The image without the zeros at its end.
#[verifier::opaque]
pub open spec fn unpadded_image(code: Seq<u8>) -> Seq<u8> {
    le_bytes(BUILT_PAYLOAD_MAX_LENGTH as u32) + zeros((HEADER_LENGTH - 4) as nat)
        + intermezzo_bytes() + zeros(PADDING_SIZE_1 as nat) + code.subrange(
        0,
        PADDING_SIZE_2 as int,
    ) + spray(REPEAT_COUNT as nat) + code.subrange(PADDING_SIZE_2 as int, code.len() as int)
}

/// The image built from `code`.
#[verifier::opaque]
pub open spec fn image(code: Seq<u8>) -> Seq<u8> {
    unpadded_image(code) + zeros(padding_length(unpadded_image(code).len()))
}

/// Whether `data` is the image of some code of a valid length.
pub open spec fn is_image(data: Seq<u8>) -> bool {
    exists|code: Seq<u8>| valid_length(code.len()) && data == #[trigger] image(code)
}

/// An error while trying to create a payload.
#[derive(Debug, PartialEq, Eq, Clone)]
#[non_exhaustive]
pub enum PayloadError {
    /// The file at this path could not be read.
    Io(String),
    /// The code is shorter than the minimum length; holds its length.
    PayloadTooShort(usize),
    /// The code is not shorter than the maximum length; holds its length.
    PayloadTooLong(usize),
}

impl PayloadError {
    /// The text of `to_string`.
    pub open spec fn spec_to_string(self) -> Seq<char> {
        match self {
            PayloadError::Io(path) => "Payload failed to read from file: "@ + path@,
            PayloadError::PayloadTooShort(len) => "Payload invalid size: `"@ + decimal(len as nat)
                + "` (expected >= "@ + decimal(PAYLOAD_MIN_LENGTH as nat) + ")"@,
            PayloadError::PayloadTooLong(len) => "Payload invalid size: `"@ + decimal(len as nat)
                + "` (expected < "@ + decimal(PAYLOAD_MAX_LENGTH as nat) + ")"@,
        }
    }

    /// What to tell the user about the error.
    pub fn to_string(&self) -> (text: String)
        ensures
            text@ == self.spec_to_string(),
    {
        match self {
            PayloadError::Io(path) => {
                let mut text = String::from_str("Payload failed to read from file: ");
                text.append(path.as_str());
                text
            },
            PayloadError::PayloadTooShort(len) => {
                let mut text = String::from_str("Payload invalid size: `");
                append_decimal(&mut text, *len);
                text.append("` (expected >= ");
                append_decimal(&mut text, PAYLOAD_MIN_LENGTH);
                text.append(")");
                text
            },
            PayloadError::PayloadTooLong(len) => {
                let mut text = String::from_str("Payload invalid size: `");
                append_decimal(&mut text, *len);
                text.append("` (expected < ");
                append_decimal(&mut text, PAYLOAD_MAX_LENGTH);
                text.append(")");
                text
            },
        }
    }
}

/// A constructed payload: the image that is transferred to the device in RCM
/// mode. Copies share the bytes.
#[derive(Debug, PartialEq, Eq, Hash)]
pub struct Payload {
    data: Rc<Vec<u8>>,
}

impl View for Payload {
    type V = Seq<u8>;

    closed spec fn view(&self) -> Seq<u8> {
        (*self.data)@
    }
}

impl Clone for Payload {
    fn clone(&self) -> (copy: Payload)
        ensures
            copy@ == self@,
    {
        proof {
            use_type_invariant(self);
        }
        Payload { data: share(&self.data) }
    }
}

impl Payload {
    #[verifier::type_invariant]
    spec fn well_formed(self) -> bool {
        is_image((*self.data)@)
    }

    /// Whether `result` is what building `code` into a payload comes to: the
    /// image of the code where its length is valid, else the error that
    /// says on which side the length is out of bounds.
    pub open spec fn is_built_from(result: Result<Payload, PayloadError>, code: Seq<u8>) -> bool {
        if code.len() < PAYLOAD_MIN_LENGTH {
            result == Err::<Payload, PayloadError>(
                PayloadError::PayloadTooShort(code.len() as usize),
            )
        } else if code.len() >= PAYLOAD_MAX_LENGTH {
            result == Err::<Payload, PayloadError>(PayloadError::PayloadTooLong(code.len() as usize))
        } else {
            result matches Ok(payload) && payload@ == image(code)
        }
    }

    /// Construct a new payload from the code to run.
    ///
    /// The length of `payload` must be at least `PAYLOAD_MIN_LENGTH` and
    /// less than `PAYLOAD_MAX_LENGTH`.
    pub fn new(payload: &[u8]) -> (result: Result<Payload, PayloadError>)
        ensures
            payload@.len() < PAYLOAD_MIN_LENGTH ==> result == Err::<Payload, PayloadError>(
                PayloadError::PayloadTooShort(payload.len()),
            ),
            payload@.len() >= PAYLOAD_MAX_LENGTH ==> result == Err::<Payload, PayloadError>(
                PayloadError::PayloadTooLong(payload.len()),
            ),
            valid_length(payload@.len()) ==> result is Ok && result->Ok_0@ == image(payload@),
    {
        if payload.len() < PAYLOAD_MIN_LENGTH {
            return Err(PayloadError::PayloadTooShort(payload.len()));
        }
        if payload.len() >= PAYLOAD_MAX_LENGTH {
            return Err(PayloadError::PayloadTooLong(payload.len()));
        }
        let ghost code = payload@;
        let mut builder: Vec<u8> = Vec::with_capacity(BUILT_PAYLOAD_MAX_LENGTH);
        // start with the length that the stub is told
        push_le_bytes(&mut builder, BUILT_PAYLOAD_MAX_LENGTH as u32);
        // pad up to the start of IRAM
        push_zeros(&mut builder, HEADER_LENGTH - 4);
        // add the stub
        builder.extend_from_slice(INTERMEZZO.as_slice());
        assert(builder@ =~= le_bytes(BUILT_PAYLOAD_MAX_LENGTH as u32) + zeros(
            (HEADER_LENGTH - 4) as nat,
        ) + intermezzo_bytes());
        push_zeros(&mut builder, PADDING_SIZE_1);
        // fit a part of the code before the stack spray
        builder.extend_from_slice(slice_subrange(payload, 0, PADDING_SIZE_2));
        let ghost before_spray = builder@;
        assert(before_spray =~= le_bytes(BUILT_PAYLOAD_MAX_LENGTH as u32) + zeros(
            (HEADER_LENGTH - 4) as nat,
        ) + intermezzo_bytes() + zeros(PADDING_SIZE_1 as nat) + code.subrange(
            0,
            PADDING_SIZE_2 as int,
        ));
        // the stack spray
        let mut word: usize = 0;
        while word < REPEAT_COUNT
            invariant
                word <= REPEAT_COUNT,
                builder@ == before_spray + spray(word as nat),
            decreases REPEAT_COUNT - word,
        {
            push_le_bytes(&mut builder, RCM_PAYLOAD_ADDR as u32);
            assert(builder@ =~= before_spray + spray((word + 1) as nat));
            word += 1;
        }
        builder.extend_from_slice(slice_subrange(payload, PADDING_SIZE_2, payload.len()));
        assert(builder@ =~= unpadded_image(code)) by {
            reveal(unpadded_image);
        }
        // finish with zeros up to a multiple of the block size
        let padding_size = BLOCK_SIZE - (builder.len() % BLOCK_SIZE);
        push_zeros(&mut builder, padding_size);
        assert(builder@ == image(code)) by {
            reveal(image);
        }
        proof {
            lemma_image_length(code);
        }
        Ok(Payload { data: Rc::new(builder) })
    }

    /// Read a payload from the file at `path`, given what reading the file
    /// came to: its contents, or `None` where it could not be read.
    pub fn read(path: &str, contents: Option<&[u8]>) -> (result: Result<Payload, PayloadError>)
        ensures
            contents is None ==> (result matches Err(PayloadError::Io(failed)) && failed@ == path@),
            contents matches Some(code) ==> Self::is_built_from(result, code@),
    {
        match contents {
            None => Err(PayloadError::Io(String::from_str(path))),
            Some(code) => Payload::new(code),
        }
    }

    /// Get the data for the payload.
    pub fn data(&self) -> (data: &[u8])
        ensures
            data@ == self@,
            is_image(data@),
            data@.len() % (BLOCK_SIZE as nat) == 0,
            0 < data@.len() <= BUILT_PAYLOAD_MAX_LENGTH,
    {
        proof {
            use_type_invariant(self);
            lemma_is_image_length(self@);
        }
        self.data.as_slice()
    }
}

/// Appends the four bytes of `x`, least significant first.
fn push_le_bytes(out: &mut Vec<u8>, x: u32)
    ensures
        final(out)@ == old(out)@ + le_bytes(x),
{
    out.push((x % 256) as u8);
    out.push((x / 256 % 256) as u8);
    out.push((x / 65536 % 256) as u8);
    out.push((x / 16777216) as u8);
    assert(out@ =~= old(out)@ + le_bytes(x));
}

/// Appends `n` zero bytes.
fn push_zeros(out: &mut Vec<u8>, n: usize)
    requires
        old(out)@.len() + n <= usize::MAX,
    ensures
        final(out)@ == old(out)@ + zeros(n as nat),
{
    let len = out.len() + n;
    out.resize(len, 0u8);
    assert(out@ =~= old(out)@ + zeros(n as nat)) by {
        assert(out@.subrange(0, old(out)@.len() as int) == old(out)@);
        assert forall|i: int| 0 <= i < old(out)@.len() implies out@[i] == old(out)@[i] by {
            assert(out@.subrange(0, old(out)@.len() as int)[i] == out@[i]);
        }
    }
}

/// Calls `Rc::clone`, which gives another pointer to the same allocation:
/// the copy holds what `data` holds.
#[verifier::external_body]
fn share(data: &Rc<Vec<u8>>) -> (copy: Rc<Vec<u8>>)
    ensures
        copy == *data,
{
    Rc::clone(data)
}

/// The length of the image built from code of a valid length: a positive
/// multiple of the block size, at most `BUILT_PAYLOAD_MAX_LENGTH`, and the
/// first multiple of the block size above the length without the zeros at
/// the end.
pub proof fn lemma_image_length(code: Seq<u8>)
    requires
        valid_length(code.len()),
    ensures
        unpadded_image(code).len() == TAIL_OFFSET + code.len() - PADDING_SIZE_2,
        image(code).len() == (unpadded_image(code).len() / (BLOCK_SIZE as nat) + 1) * BLOCK_SIZE,
        image(code).len() % (BLOCK_SIZE as nat) == 0,
        0 < image(code).len() <= BUILT_PAYLOAD_MAX_LENGTH,
{
    reveal(unpadded_image);
    reveal(image);
}

/// Four bytes written least significant first stand for the number written.
pub proof fn lemma_le_word_of_le_bytes(x: u32)
    ensures
        le_bytes(x).len() == 4,
        le_word(le_bytes(x)) == x,
{
}

/// The byte at offset `i` of the image built from `code`, region by region.
pub open spec fn image_byte(code: Seq<u8>, i: int) -> u8 {
    if i < 4 {
        le_bytes(BUILT_PAYLOAD_MAX_LENGTH as u32)[i]
    } else if i < HEADER_LENGTH {
        0
    } else if i < HEADER_LENGTH + INTERMEZZO_LENGTH {
        intermezzo_bytes()[i - HEADER_LENGTH]
    } else if i < CODE_OFFSET {
        0
    } else if i < SPRAY_OFFSET {
        code[i - CODE_OFFSET]
    } else if i < TAIL_OFFSET {
        le_bytes(RCM_PAYLOAD_ADDR as u32)[(i - SPRAY_OFFSET) % 4]
    } else if i < TAIL_OFFSET + code.len() - PADDING_SIZE_2 {
        code[i - TAIL_OFFSET + PADDING_SIZE_2]
    } else {
        0
    }
}

/// What stands at each offset of the image built from code of a valid
/// length: the header with the length that the stub is told, the stub, the
/// code on both sides of the stack spray, and zeros everywhere else.
pub proof fn lemma_image_byte(code: Seq<u8>, i: int)
    requires
        valid_length(code.len()),
        0 <= i < image(code).len(),
    ensures
        image(code)[i] == image_byte(code, i),
{
    reveal(unpadded_image);
    reveal(image);
    let header = le_bytes(BUILT_PAYLOAD_MAX_LENGTH as u32) + zeros((HEADER_LENGTH - 4) as nat);
    let stub = header + intermezzo_bytes();
    let padded = stub + zeros(PADDING_SIZE_1 as nat);
    let head = padded + code.subrange(0, PADDING_SIZE_2 as int);
    let sprayed = head + spray(REPEAT_COUNT as nat);
    let body = sprayed + code.subrange(PADDING_SIZE_2 as int, code.len() as int);
    assert(body == unpadded_image(code));
    assert(header.len() == HEADER_LENGTH);
    assert(stub.len() == HEADER_LENGTH + INTERMEZZO_LENGTH);
    assert(padded.len() == CODE_OFFSET);
    assert(head.len() == SPRAY_OFFSET);
    assert(sprayed.len() == TAIL_OFFSET);
    assert(body.len() == TAIL_OFFSET + code.len() - PADDING_SIZE_2);
    if i < HEADER_LENGTH {
        assert(image(code)[i] == header[i]);
    } else if i < HEADER_LENGTH + INTERMEZZO_LENGTH {
        assert(image(code)[i] == stub[i]);
    } else if i < CODE_OFFSET {
        assert(image(code)[i] == padded[i]);
    } else if i < SPRAY_OFFSET {
        assert(image(code)[i] == head[i]);
    } else if i < TAIL_OFFSET {
        assert(image(code)[i] == sprayed[i]);
    } else if i < body.len() {
        assert(image(code)[i] == body[i]);
    } else {
    }
}

/// The regions of the image built from code of a valid length.
pub proof fn lemma_image_layout(code: Seq<u8>)
    requires
        valid_length(code.len()),
    ensures
        image(code).subrange(0, 4) == le_bytes(BUILT_PAYLOAD_MAX_LENGTH as u32),
        le_word(image(code).subrange(0, 4)) == BUILT_PAYLOAD_MAX_LENGTH,
        image(code).subrange(4, HEADER_LENGTH as int) == zeros((HEADER_LENGTH - 4) as nat),
        image(code).subrange(HEADER_LENGTH as int, HEADER_LENGTH + INTERMEZZO_LENGTH)
            == intermezzo_bytes(),
        image(code).subrange(HEADER_LENGTH + INTERMEZZO_LENGTH, CODE_OFFSET as int) == zeros(
            PADDING_SIZE_1 as nat,
        ),
        image(code).subrange(CODE_OFFSET as int, SPRAY_OFFSET as int) == code.subrange(
            0,
            PADDING_SIZE_2 as int,
        ),
        image(code).subrange(SPRAY_OFFSET as int, TAIL_OFFSET as int) == spray(REPEAT_COUNT as nat),
        image(code).subrange(TAIL_OFFSET as int, TAIL_OFFSET + code.len() - PADDING_SIZE_2)
            == code.subrange(PADDING_SIZE_2 as int, code.len() as int),
        image(code).subrange(
            TAIL_OFFSET + code.len() - PADDING_SIZE_2,
            image(code).len() as int,
        ) == zeros(padding_length(unpadded_image(code).len())),
{
    lemma_image_length(code);
    lemma_le_word_of_le_bytes(BUILT_PAYLOAD_MAX_LENGTH as u32);
    let end = TAIL_OFFSET + code.len() - PADDING_SIZE_2;
    lemma_region(code, 0, 4, le_bytes(BUILT_PAYLOAD_MAX_LENGTH as u32));
    lemma_region(code, 4, HEADER_LENGTH as int, zeros((HEADER_LENGTH - 4) as nat));
    lemma_region(
        code,
        HEADER_LENGTH as int,
        HEADER_LENGTH + INTERMEZZO_LENGTH,
        intermezzo_bytes(),
    );
    lemma_region(
        code,
        HEADER_LENGTH + INTERMEZZO_LENGTH,
        CODE_OFFSET as int,
        zeros(PADDING_SIZE_1 as nat),
    );
    lemma_region(
        code,
        CODE_OFFSET as int,
        SPRAY_OFFSET as int,
        code.subrange(0, PADDING_SIZE_2 as int),
    );
    lemma_region(code, SPRAY_OFFSET as int, TAIL_OFFSET as int, spray(REPEAT_COUNT as nat));
    lemma_region(
        code,
        TAIL_OFFSET as int,
        end,
        code.subrange(PADDING_SIZE_2 as int, code.len() as int),
    );
    lemma_region(
        code,
        end,
        image(code).len() as int,
        zeros(padding_length(unpadded_image(code).len())),
    );
}

/// A region of the image is the sequence that agrees with it byte by byte.
proof fn lemma_region(code: Seq<u8>, from: int, to: int, expected: Seq<u8>)
    requires
        valid_length(code.len()),
        0 <= from <= to <= image(code).len(),
        expected.len() == to - from,
        forall|i: int| from <= i < to ==> #[trigger] image_byte(code, i) == expected[i - from],
    ensures
        image(code).subrange(from, to) == expected,
{
    let region = image(code).subrange(from, to);
    assert forall|k: int| 0 <= k < to - from implies region[k] == expected[k] by {
        lemma_image_byte(code, from + k);
        assert(image_byte(code, from + k) == expected[from + k - from]);
    }
    assert(region =~= expected);
}

/// The stack spray of an image is `REPEAT_COUNT` words long, and each of its
/// words, read least significant byte first, is the address
/// `RCM_PAYLOAD_ADDR`.
pub proof fn lemma_spray_content(code: Seq<u8>, word: int)
    requires
        valid_length(code.len()),
        0 <= word < REPEAT_COUNT,
    ensures
        TAIL_OFFSET - SPRAY_OFFSET == 4 * REPEAT_COUNT,
        SPRAY_OFFSET + 4 * word + 4 <= TAIL_OFFSET <= image(code).len(),
        image(code).subrange(SPRAY_OFFSET + 4 * word, SPRAY_OFFSET + 4 * word + 4) == le_bytes(
            RCM_PAYLOAD_ADDR as u32,
        ),
        le_word(image(code).subrange(SPRAY_OFFSET + 4 * word, SPRAY_OFFSET + 4 * word + 4))
            == RCM_PAYLOAD_ADDR,
{
    lemma_image_length(code);
    lemma_le_word_of_le_bytes(RCM_PAYLOAD_ADDR as u32);
    let start = SPRAY_OFFSET + 4 * word;
    let at = image(code).subrange(start, start + 4);
    assert forall|i: int| 0 <= i < 4 implies at[i] == le_bytes(RCM_PAYLOAD_ADDR as u32)[i] by {
        lemma_image_byte(code, start + i);
        assert((start + i - SPRAY_OFFSET) % 4 == i);
    }
    assert(at =~= le_bytes(RCM_PAYLOAD_ADDR as u32));
}

/// The code can be read back from its image: it is what stands before the
/// stack spray, followed by what stands behind it.
pub proof fn lemma_code_of_image(code: Seq<u8>)
    requires
        valid_length(code.len()),
    ensures
        code == image(code).subrange(CODE_OFFSET as int, SPRAY_OFFSET as int) + image(
            code,
        ).subrange(TAIL_OFFSET as int, TAIL_OFFSET + code.len() - PADDING_SIZE_2),
{
    lemma_image_length(code);
    let head = image(code).subrange(CODE_OFFSET as int, SPRAY_OFFSET as int);
    let tail = image(code).subrange(TAIL_OFFSET as int, TAIL_OFFSET + code.len() - PADDING_SIZE_2);
    assert forall|i: int| 0 <= i < code.len() implies code[i] == (head + tail)[i] by {
        if i < PADDING_SIZE_2 {
            lemma_image_byte(code, CODE_OFFSET + i);
        } else {
            lemma_image_byte(code, TAIL_OFFSET + i - PADDING_SIZE_2);
        }
    }
    assert(code =~= head + tail);
}

/// Every image of code of a valid length is a positive multiple of the
/// block size long, and at most `BUILT_PAYLOAD_MAX_LENGTH`.
pub proof fn lemma_is_image_length(data: Seq<u8>)
    requires
        is_image(data),
    ensures
        data.len() % (BLOCK_SIZE as nat) == 0,
        0 < data.len() <= BUILT_PAYLOAD_MAX_LENGTH,
{
    let code = choose|code: Seq<u8>| valid_length(code.len()) && data == #[trigger] image(code);
    lemma_image_length(code);
}

} // verus!
