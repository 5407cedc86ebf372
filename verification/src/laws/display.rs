//! Laws of what the user is shown.
use vstd::prelude::*;

use crate::commands::{cleanup_report, receive_summary, send_summary};
use crate::receive::{display_offer, file_lines, ReceiveOutcome};
use crate::send::SendOutcome;
use crate::session::control::FileMeta;
use crate::text::{decimal, decimal_string};
use crate::ui::{half_even, human_bytes, precision, show_code, small_counts_are_exact};

verus! {

broadcast use vstd::string::group_string_axioms;

/// A count below 1024 is shown as it is, in bytes.
pub proof fn small_counts_are_shown_in_bytes(bytes: u64, text: String, number: String)
    requires
        call_ensures(human_bytes, (bytes,), text),
        call_ensures(decimal_string, (bytes,), number),
        bytes < 1024,
    ensures
        text@ == number@ + " B"@,
{
    small_counts_are_exact(bytes as int);
}

/// Whether a text shows a count in tenths of a unit, rounded to the nearest.
pub open spec fn shows_tenths(text: Seq<char>, bytes: int, size: int, unit: Seq<char>) -> bool {
    exists|tenths: int| #[trigger]
        nearest(10 * bytes, size, tenths) && text == decimal((tenths / 10) as nat) + "."@ + decimal(
            (tenths % 10) as nat,
        ) + " "@ + unit
}

/// Whether `q` is the nearest whole number to `n / d`, and the even one of two that are equally near.
pub open spec fn nearest(n: int, d: int, q: int) -> bool {
    &&& 2 * (n - q * d) <= d && 2 * (q * d - n) <= d
    &&& 2 * (n - q * d) == d || 2 * (q * d - n) == d ==> q % 2 == 0
}

proof fn half_even_is_nearest(n: int, d: int)
    requires
        0 <= n,
        0 < d,
    ensures
        nearest(n, d, half_even(n, d)),
{
    let q = n / d;
    let r = n % d;
    vstd::arithmetic::div_mod::lemma_fundamental_div_mod(n, d);
    vstd::arithmetic::div_mod::lemma_mod_bound(n, d);
    assert(q * d == d * q) by (nonlinear_arith);
    assert((q + 1) * d == q * d + d) by (nonlinear_arith);
}

/// A larger count, up to what double precision holds exactly, is shown in tenths of the largest
/// unit that it reaches.
pub proof fn large_counts_are_shown_in_tenths(bytes: u64, text: String)
    requires
        call_ensures(human_bytes, (bytes,), text),
        1024 <= bytes < 9007199254740992,
    ensures
        bytes < 1048576 ==> shows_tenths(text@, bytes as int, 1024, "KiB"@),
        1048576 <= bytes < 1073741824 ==> shows_tenths(text@, bytes as int, 1048576, "MiB"@),
        1073741824 <= bytes < 1099511627776 ==> shows_tenths(
            text@,
            bytes as int,
            1073741824,
            "GiB"@,
        ),
        1099511627776 <= bytes ==> shows_tenths(text@, bytes as int, 1099511627776, "TiB"@),
{
    small_counts_are_exact(bytes as int);
    let n = 10 * bytes as int;
    half_even_is_nearest(n, 1024);
    half_even_is_nearest(n, 1048576);
    half_even_is_nearest(n, 1073741824);
    half_even_is_nearest(n, 1099511627776);
}

/// Whether `value` is the double-precision number nearest to a count: a multiple of a power of two
/// that leaves just 53 binary digits.
pub open spec fn is_double_of(bytes: int, value: int, power: nat) -> bool {
    let step = vstd::arithmetic::power2::pow2(power) as int;
    &&& 4503599627370496 * step <= bytes < 9007199254740992 * step
    &&& exists|q: int| #[trigger] nearest(bytes, step, q) && value == q * step
}

/// Above that, a count is shown in tenths of tebibytes from the double-precision number nearest to
/// it.
pub proof fn huge_counts_are_shown_from_their_double(bytes: u64, text: String) -> (double: (int, nat))
    requires
        call_ensures(human_bytes, (bytes,), text),
        9007199254740992 <= bytes,
    ensures
        is_double_of(bytes as int, double.0, double.1),
        shows_tenths(text@, double.0, 1099511627776, "TiB"@),
{
    let n = bytes as int;
    vstd::arithmetic::power2::lemma2_to64();
    let power = precise(n, 0);
    let step = vstd::arithmetic::power2::pow2(power) as int;
    vstd::arithmetic::power2::lemma_pow2_pos(power);
    half_even_is_nearest(n, step);
    let q = half_even(n, step);
    let value = q * step;
    assert(value >= 4503599627370496 * step - step) by (nonlinear_arith)
        requires
            value == q * step,
            2 * (n - q * step) <= step,
            4503599627370496 * step <= n,
            step > 0,
    ;
    assert(value >= 1099511627776) by (nonlinear_arith)
        requires
            value >= 4503599627370496 * step - step,
            step >= 1,
    ;
    half_even_is_nearest(10 * value, 1099511627776);
    (value, power)
}

proof fn precise(n: int, power: nat) -> (found: nat)
    requires
        4503599627370496 * vstd::arithmetic::power2::pow2(power) <= n,
    ensures
        precision(n, vstd::arithmetic::power2::pow2(power) as int)
            == vstd::arithmetic::power2::pow2(found),
        4503599627370496 * vstd::arithmetic::power2::pow2(found) <= n < 9007199254740992
            * vstd::arithmetic::power2::pow2(found),
    decreases n - vstd::arithmetic::power2::pow2(power),
{
    let step = vstd::arithmetic::power2::pow2(power) as int;
    vstd::arithmetic::power2::lemma_pow2_pos(power);
    assert(n / step < 9007199254740992 <==> n < 9007199254740992 * step) by (nonlinear_arith)
        requires
            step > 0,
            n >= 0,
    ;
    if n / step < 9007199254740992 {
        power
    } else {
        vstd::arithmetic::power2::lemma_pow2_unfold(power + 1);
        precise(n, power + 1)
    }
}

/// The code is shown as it is, in colour on a terminal alone.
pub proof fn the_code_is_shown_as_it_is(code: &str, terminal: bool, line: String)
    requires
        call_ensures(show_code, (code, terminal), line),
    ensures
        !terminal ==> line@ == "配对码 / Pairing code: "@ + code@,
        terminal ==> line@ == "\x1b[1;33m配对码 / Pairing code: "@ + code@ + "\x1b[0m"@,
{
}

/// The line of a file in an offer.
pub open spec fn file_line(file: FileMeta, size: Seq<char>) -> Seq<char> {
    "  "@ + file.name@ + " ("@ + size + ")\n"@
}

proof fn lines_alike(files: Seq<FileMeta>, longer: Seq<FileMeta>, n: int)
    requires
        0 <= n <= files.len() <= longer.len(),
        forall|i: int| 0 <= i < n ==> files[i] == longer[i],
    ensures
        file_lines(files, n) == file_lines(longer, n),
    decreases n,
{
    if n > 0 {
        lines_alike(files, longer, n - 1);
    }
}

/// The line that an offer starts with.
pub open spec fn offer_head(count: Seq<char>, size: Seq<char>) -> Seq<char> {
    "发送方发来了 "@ + count + " 个文件（"@ + size + "） / Sender offers "@ + count + " files ("@
        + size + " total):\n"@
}

/// An offer shows how many files and bytes it has, and then every file on a line of its own: one
/// file more adds a line with its name and its size behind those of the others.
pub proof fn an_offer_shows_every_file(
    files: &Vec<FileMeta>,
    longer: &Vec<FileMeta>,
    file: FileMeta,
    total: u64,
    text: String,
    then: String,
    count: String,
    more: String,
    size: String,
    one: String,
) -> (lines: Seq<char>)
    requires
        call_ensures(display_offer, (files, total), text),
        longer@ == files@.push(file),
        call_ensures(display_offer, (longer, total), then),
        call_ensures(decimal_string, (files@.len() as u64,), count),
        call_ensures(decimal_string, (longer@.len() as u64,), more),
        longer@.len() <= u64::MAX,
        call_ensures(human_bytes, (total,), size),
        call_ensures(human_bytes, (file.size,), one),
    ensures
        files@.len() == 0 ==> lines.len() == 0,
        text@ == offer_head(count@, size@) + lines,
        then@ == offer_head(more@, size@) + (lines + file_line(file, one@)),
{
    let n = files@.len() as int;
    let lines = file_lines(files@, n);
    lines_alike(files@, longer@, n);
    assert(longer@[n] == file);
    assert(file_lines(longer@, n + 1) =~= lines + file_line(file, one@));
    lines
}

/// The summary of a complete transfer shows how many files and bytes were received, and how many
/// were skipped if any were. A refusal is shown with its reason.
pub proof fn a_summary_shows_what_was_done(
    outcome: &SendOutcome,
    text: String,
    bytes: u64,
    files: u32,
    skipped: u32,
    size: String,
    count: String,
    left: String,
)
    requires
        call_ensures(send_summary, (outcome,), text),
        call_ensures(human_bytes, (bytes,), size),
        call_ensures(decimal_string, (files as u64,), count),
        call_ensures(decimal_string, (skipped as u64,), left),
    ensures
        outcome matches SendOutcome::Completed {
            bytes: b,
            files: f,
            skipped_bytes: _,
            skipped_files: s,
        } ==> (*b == bytes && *f == files && *s == skipped ==> {
            let line = "传输完成："@ + count@ + " 个文件，"@ + size@ + " / Transfer complete: "@
                + count@ + " files, "@ + size@ + "\n"@;
            text@ == if skipped > 0 {
                line + "（跳过 "@ + left@ + " 个已存在文件 / skipped "@ + left@
                    + " existing files）\n"@
            } else {
                line
            }
        }),
        outcome matches SendOutcome::Declined { reason } ==> text@ == "接收方已拒绝："@ + reason@
            + " / Receiver declined: "@ + reason@ + "\n"@,
        outcome is Cancelled ==> text@ == "已取消 / Cancelled\n"@,
{
}

/// The receiver is shown the same of a complete transfer, and whether it was declined or
/// cancelled.
pub proof fn both_sides_are_shown_the_same(
    sent: &SendOutcome,
    at_sender: String,
    received: &ReceiveOutcome,
    at_receiver: String,
)
    requires
        call_ensures(send_summary, (sent,), at_sender),
        call_ensures(receive_summary, (received,), at_receiver),
    ensures
        match (sent, received) {
            (
                SendOutcome::Completed { bytes, files, skipped_bytes: _, skipped_files },
                ReceiveOutcome::Completed { bytes: b, files: f, skipped_files: s },
            ) => *bytes == *b && *files as int == *f as int && *skipped_files as int == *s as int
                ==> at_sender@ == at_receiver@,
            _ => true,
        },
        received is Declined ==> at_receiver@ == "已拒绝 / Declined\n"@,
        received is Cancelled ==> at_receiver@ == "已取消 / Cancelled\n"@,
{
}

/// Cleaning up tells how many blobs each role had.
pub proof fn a_cleanup_tells_what_was_cleared(
    sent: usize,
    received: usize,
    text: String,
    a: String,
    b: String,
)
    requires
        call_ensures(cleanup_report, (sent, received), text),
        call_ensures(decimal_string, (sent as u64,), a),
        call_ensures(decimal_string, (received as u64,), b),
    ensures
        text@ == "已清空"@ + "发送"@ + "缓存 "@ + a@ + " 个 blob / Cleared "@ + "send"@
            + " cache ("@ + a@ + " blobs)"@ + "\n"@ + ("已清空"@ + "接收"@ + "缓存 "@ + b@
            + " 个 blob / Cleared "@ + "receive"@ + " cache ("@ + b@ + " blobs)"@),
{
}

} // verus!
