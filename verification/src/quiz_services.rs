//! The quiz submitter's rules: how quiz data is framed for the grading
//! contract, and how the contract's answer is read back.

use vstd::prelude::*;
use vstd::utf8::{encode_utf8, is_ascii_chars};
use vstd::string::StringSliceAdditionalSpecFns;
use crate::hashing::{hex_bytes_of, hex_decode, hex_digit, hex_encode, hex_lower, hex_value, is_hex_text};
use crate::quiz_model::{due_for_submission, Quiz, QuizView, Status};
use crate::text::{contains, has_substring, strip_all_prefixes, trim_start_matches};

verus! {

/// Bytes written as `0x` followed by their lowercase hexadecimal digits.
pub open spec fn framed_hex(bytes: Seq<u8>) -> Seq<char> {
    "0x"@ + hex_lower(bytes)
}

/// Writes bytes as `0x` followed by their lowercase hexadecimal digits, the
/// form in which serialized quiz data is handed to the grading contract.
pub fn frame_hex(bytes: &[u8]) -> (r: String)
    ensures
        r@ == framed_hex(bytes@),
{
    let mut framed = String::from_str("0x");
    let digits = hex_encode(bytes);
    framed.append(digits.as_str());
    framed
}

/// The text the submitter keeps for the contract's answer: `false` while the
/// answer is shorter than four bytes (none yet), else the answer framed as hex.
pub open spec fn response_text_of(response: Seq<u8>) -> Seq<char> {
    if response.len() < 4 {
        "false"@
    } else {
        framed_hex(response)
    }
}

/// The text the submitter keeps for the contract's answer.
pub fn quiz_response_text(response: &[u8]) -> (r: String)
    ensures
        r@ == response_text_of(response@),
{
    if response.len() < 4 {
        String::from_str("false")
    } else {
        frame_hex(response)
    }
}

/// Why the contract's answer could not be read.
#[derive(Debug, Clone, Copy, PartialEq, Eq, Structural)]
pub enum PayloadError {
    /// After its `0x` prefixes, the answer is not an even run of hex digits.
    InvalidHex,
}

/// What a kept answer text holds: nothing yet when it mentions `false`; else,
/// after removing its leading `0x` prefixes, the bytes its hex digits stand
/// for, or an error when they are not hex digits.
pub open spec fn payload_of(text: Seq<char>) -> Option<Result<Seq<u8>, PayloadError>> {
    if has_substring(text, "false"@) {
        None
    } else {
        let digits = encode_utf8(strip_all_prefixes(text, "0x"@));
        if is_hex_text(digits) {
            Some(Ok(hex_bytes_of(digits)))
        } else {
            Some(Err(PayloadError::InvalidHex))
        }
    }
}

/// Reads a kept answer text: `None` while there is no answer yet, else the
/// answer's bytes or why they could not be read.
pub fn quiz_response_payload(response: &str) -> (r: Option<Result<Vec<u8>, PayloadError>>)
    ensures
        match payload_of(response@) {
            None => r is None,
            Some(Ok(bytes)) => r matches Some(Ok(v)) && v@ == bytes,
            Some(Err(e)) => r == Some(Err::<Vec<u8>, PayloadError>(e)),
        },
{
    if contains(response, "false") {
        return None;
    }
    let digits = trim_start_matches(response, "0x");
    match hex_decode(digits) {
        Ok(bytes) => Some(Ok(bytes)),
        Err(_) => Some(Err(PayloadError::InvalidHex)),
    }
}

/// The 20 address bytes at the end of a 32-byte event topic.
pub fn contract_address_bytes(topic: &[u8]) -> (r: Vec<u8>)
    requires
        topic@.len() == 32,
    ensures
        r@ == topic@.subrange(12, 32),
{
    let mut out: Vec<u8> = Vec::new();
    let mut i: usize = 12;
    while i < 32
        invariant
            topic@.len() == 32,
            12 <= i <= 32,
            out@ == topic@.subrange(12, i as int),
        decreases 32 - i,
    {
        out.push(topic[i]);
        i = i + 1;
        assert(out@ =~= topic@.subrange(12, i as int));
    }
    out
}

// ---------------------------------------------------------------- the submitter's pass

/// The quizzes, by position and in order, that are due for grading at time `now`.
pub fn quizzes_due(quizzes: &Vec<Quiz>, now: i64) -> (r: Vec<usize>)
    ensures
        forall|k: int|
            0 <= k < r@.len() ==> #[trigger] r@[k] < quizzes@.len() && due_for_submission(
                quizzes@[r@[k] as int]@,
                now,
            ),
        forall|k: int, l: int| 0 <= k < l < r@.len() ==> #[trigger] r@[k] < #[trigger] r@[l],
        forall|i: int|
            0 <= i < quizzes@.len() && due_for_submission(#[trigger] quizzes@[i]@, now)
                ==> r@.contains(i as usize),
{
    let mut due: Vec<usize> = Vec::new();
    let n = quizzes.len();
    let mut i: usize = 0;
    while i < n
        invariant
            n == quizzes@.len(),
            i <= n,
            forall|k: int|
                0 <= k < due@.len() ==> #[trigger] due@[k] < i && due_for_submission(
                    quizzes@[due@[k] as int]@,
                    now,
                ),
            forall|k: int, l: int| 0 <= k < l < due@.len() ==> #[trigger] due@[k] < #[trigger] due@[l],
            forall|j: int|
                0 <= j < i && due_for_submission(#[trigger] quizzes@[j]@, now) ==> due@.contains(
                    j as usize,
                ),
        decreases n - i,
    {
        if quizzes[i].is_due_for_submission(now) {
            let ghost before = due@;
            due.push(i);
            assert forall|j: int|
                0 <= j < i + 1 && due_for_submission(#[trigger] quizzes@[j]@, now) implies due@.contains(
                j as usize,
            ) by {
                if j < i {
                    let k = choose|k: int| 0 <= k < before.len() && before[k] == j as usize;
                    assert(due@[k] == before[k]);
                } else {
                    assert(due@[before.len() as int] == i);
                }
            }
        }
        i = i + 1;
    }
    due
}

/// What the submitter learns about a quiz as it handles it.
#[derive(Debug)]
pub enum SubmitterEvent {
    /// The pass reached the quiz at time `now`.
    Checked { now: i64 },
    /// The quiz was handed to its contract, successfully or not.
    Sent { ok: bool },
    /// The contract was asked for its answer, kept as this text.
    Answered { text: String },
}

/// What the submitter does next with a quiz.
#[derive(Debug)]
pub enum SubmitterAction {
    /// Nothing more in this pass.
    Leave,
    /// Hand the quiz to its contract.
    SendToContract,
    /// Ask the contract for its answer.
    AskForAnswer,
    /// Store the quiz, now graded, and record the results in these bytes.
    Grade(Vec<u8>),
    /// The answer could not be read.
    Malformed(PayloadError),
}

/// One step of the submitter on one quiz: from what it learned, what it does
/// next, and how the quiz changes. A quiz is handed over only when due; it is
/// marked graded only once the contract's answer is there and readable.
pub fn submitter_step(quiz: &mut Quiz, event: SubmitterEvent) -> (a: SubmitterAction)
    ensures
        match event {
            SubmitterEvent::Checked { now } => final(quiz)@ == old(quiz)@ && (if due_for_submission(
                old(quiz)@,
                now,
            ) {
                a is SendToContract
            } else {
                a is Leave
            }),
            SubmitterEvent::Sent { ok } => final(quiz)@ == old(quiz)@ && (if ok {
                a is AskForAnswer
            } else {
                a is Leave
            }),
            SubmitterEvent::Answered { text } => match payload_of(text@) {
                None => final(quiz)@ == old(quiz)@ && a is Leave,
                Some(Err(e)) => final(quiz)@ == old(quiz)@ && (a matches SubmitterAction::Malformed(
                    m,
                ) && m == e),
                Some(Ok(bytes)) => final(quiz)@ == (QuizView {
                    submited: true,
                    status: Status::Completed,
                    ..old(quiz)@
                }) && (a matches SubmitterAction::Grade(v) && v@ == bytes),
            },
        },
{
    match event {
        SubmitterEvent::Checked { now } => {
            if quiz.is_due_for_submission(now) {
                SubmitterAction::SendToContract
            } else {
                SubmitterAction::Leave
            }
        },
        SubmitterEvent::Sent { ok } => {
            if ok {
                SubmitterAction::AskForAnswer
            } else {
                SubmitterAction::Leave
            }
        },
        SubmitterEvent::Answered { text } => {
            match quiz_response_payload(text.as_str()) {
                None => SubmitterAction::Leave,
                Some(Err(e)) => SubmitterAction::Malformed(e),
                Some(Ok(bytes)) => {
                    quiz.mark_submitted();
                    SubmitterAction::Grade(bytes)
                },
            }
        },
    }
}

// ---------------------------------------------------------------- laws

/// A hex digit is an ASCII character other than `x` and `l`, and reads back as its value.
proof fn lemma_hex_digit(n: int)
    requires
        0 <= n < 16,
    ensures
        '\0' <= hex_digit(n) <= '\u{7f}',
        hex_digit(n) != 'x',
        hex_digit(n) != 'l',
        hex_value(hex_digit(n) as u8) == Some(n as u8),
{
}

/// The characters of a framed hex text, other than its `0x`, are hex digits.
proof fn lemma_framed_chars(bytes: Seq<u8>, k: int)
    requires
        0 <= k < framed_hex(bytes).len(),
    ensures
        '\0' <= framed_hex(bytes)[k] <= '\u{7f}',
        framed_hex(bytes)[k] != 'l',
        k >= 2 ==> framed_hex(bytes)[k] != 'x',
{
    reveal_strlit("0x");
    if k >= 2 {
        let i = k - 2;
        assert(framed_hex(bytes)[k] == hex_lower(bytes)[i]);
        if i % 2 == 0 {
            lemma_hex_digit(bytes[i / 2] as int / 16);
        } else {
            lemma_hex_digit(bytes[i / 2] as int % 16);
        }
    }
}

/// A kept answer text is read back as the contract's answer when it has at
/// least four bytes, and as no answer yet when it has fewer.
pub proof fn lemma_response_read_back(response: Seq<u8>)
    ensures
        response.len() >= 4 ==> payload_of(response_text_of(response)) == Some(
            Ok::<Seq<u8>, PayloadError>(response),
        ),
        response.len() < 4 ==> payload_of(response_text_of(response)) is None,
{
    reveal_strlit("false");
    reveal_strlit("0x");
    if response.len() < 4 {
        assert("false"@.subrange(0, 0 + "false"@.len() as int) =~= "false"@);
        assert(has_substring("false"@, "false"@));
    } else {
        let text = framed_hex(response);
        let h = hex_lower(response);
        // No `false` in the text: it holds no `l`.
        if has_substring(text, "false"@) {
            let i = choose|i: int|
                0 <= i && i + 5 <= text.len() && #[trigger] text.subrange(i, i + 5) == "false"@;
            assert(text.subrange(i, i + 5)[2] == 'l');
            lemma_framed_chars(response, i + 2);
        }
        // Removing the `0x` prefixes leaves the hex digits.
        assert(text.subrange(0, 2) =~= "0x"@);
        assert(text.subrange(2, text.len() as int) =~= h);
        assert(h.len() >= 2);
        lemma_framed_chars(response, 3);
        assert(h[1] == text[3]);
        assert(h.subrange(0, 2) != "0x"@) by {
            assert(h.subrange(0, 2)[1] == h[1]);
        }
        assert(strip_all_prefixes(h, "0x"@) == h);
        assert(strip_all_prefixes(text, "0x"@) == h);
        // The digits are ASCII, so their bytes are the characters themselves.
        assert(is_ascii_chars(h)) by {
            assert forall|k: int| 0 <= k < h.len() implies '\0' <= #[trigger] h[k] <= '\u{7f}' by {
                lemma_framed_chars(response, k + 2);
                assert(text[k + 2] == h[k]);
            }
        }
        vstd::utf8::is_ascii_chars_encode_utf8(h);
        let digits = encode_utf8(h);
        assert forall|k: int| 0 <= k < digits.len() implies (#[trigger] hex_value(digits[k])) is Some by {
            assert(digits[k] == h[k] as u8);
            if k % 2 == 0 {
                lemma_hex_digit(response[k / 2] as int / 16);
            } else {
                lemma_hex_digit(response[k / 2] as int % 16);
            }
        }
        assert(is_hex_text(digits));
        assert forall|j: int| 0 <= j < response.len() implies #[trigger] hex_bytes_of(digits)[j]
            == response[j] by {
            let b = response[j];
            assert(digits[2 * j] == h[2 * j] as u8);
            assert(digits[2 * j + 1] == h[2 * j + 1] as u8);
            assert((2 * j) / 2 == j);
            assert((2 * j + 1) / 2 == j);
            assert((2 * j) % 2 == 0);
            assert((2 * j + 1) % 2 == 1);
            lemma_hex_digit(b as int / 16);
            lemma_hex_digit(b as int % 16);
            assert((b as int / 16) * 16 + b as int % 16 == b as int) by (nonlinear_arith);
        }
        assert(hex_bytes_of(digits) =~= response);
    }
}

} // verus!
