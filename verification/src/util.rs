//! Suffixes for runner pod names, and how transfer progress is shown.

use vstd::prelude::*;
use vstd::string::*;
use crate::text::{hex_lower, push_hex_lower, all_hex_digits_lower, lemma_hex_round_trip, lemma_hex_length, pow16, law_hex_injective};

verus! {

#[verifier::external_type_specification]
#[verifier::external_body]
pub struct ExSystemTime(std::time::SystemTime);

#[verifier::external_type_specification]
#[verifier::external_body]
pub struct ExSystemTimeError(std::time::SystemTimeError);

/// `SystemTime::now`: the wall-clock time of the call. Nothing is stated of
/// it: it depends on the machine's clock.
#[verifier::external_body]
fn system_time_now() -> std::time::SystemTime {
    std::time::SystemTime::now()
}

/// `SystemTime::duration_since(UNIX_EPOCH)`: how long after the Unix epoch
/// `t` lies, or an error when `t` lies before it. Nothing is stated of the
/// result: `t` is opaque here.
#[verifier::external_body]
fn since_unix_epoch(t: &std::time::SystemTime) -> Result<
    std::time::Duration,
    std::time::SystemTimeError,
> {
    t.duration_since(std::time::UNIX_EPOCH)
}

/// `Duration::as_nanos`: the whole number of nanoseconds in `d`. Nothing is
/// stated of the result: `d` is opaque here.
#[verifier::external_body]
fn duration_as_nanos(d: &std::time::Duration) -> u128 {
    d.as_nanos()
}

/// The suffix made of the clock reading `nanos`: its low 24 bits in
/// lower-case hexadecimal, without leading zeros.
pub open spec fn short_id_text(nanos: nat) -> Seq<char> {
    hex_lower(nanos % 0x1000000)
}

/// The suffix for the clock reading `nanos` (nanoseconds since the Unix
/// epoch).
pub fn short_id_from_nanos(nanos: u128) -> (id: String)
    ensures
        id@ == short_id_text(nanos as nat),
{
    let low: u128 = nanos & 0xffffff;
    assert(nanos & 0xffffff == nanos % 0x1000000) by (bit_vector);
    let mut id = String::new();
    push_hex_lower(&mut id, low as u64);
    proof {
        assert(id@ =~= short_id_text(nanos as nat));
    }
    id
}

/// A short, good-enough-unique suffix for pod names, taken from the wall
/// clock. A clock that reads before the Unix epoch counts as reading zero.
pub fn short_id() -> (id: String)
    ensures
        exists|nanos: nat| #[trigger] short_id_text(nanos) == id@,
{
    let now = system_time_now();
    let nanos: u128 = match since_unix_epoch(&now) {
        Ok(d) => duration_as_nanos(&d),
        Err(_) => 0,
    };
    let id = short_id_from_nanos(nanos);
    assert(short_id_text(nanos as nat) == id@);
    id
}

/// Law: every suffix is one to six lower-case hexadecimal digits.
pub proof fn law_short_id_shape(nanos: nat)
    ensures
        1 <= short_id_text(nanos).len() <= 6,
        all_hex_digits_lower(short_id_text(nanos)),
{
    let low = nanos % 0x1000000;
    lemma_hex_round_trip(low);
    reveal_with_fuel(pow16, 7);
    assert(pow16(6) == 0x1000000);
    lemma_hex_length(low, 6);
}

/// Law: clock readings that differ in their low 24 bits give different
/// suffixes.
pub proof fn law_short_id_distinct(a: nat, b: nat)
    requires
        a % 0x1000000 != b % 0x1000000,
    ensures
        short_id_text(a) != short_id_text(b),
{
    if short_id_text(a) == short_id_text(b) {
        law_hex_injective(a % 0x1000000, b % 0x1000000);
    }
}

/// How a progress indicator for `total_bytes` is drawn.
#[derive(Debug, PartialEq, Eq)]
pub enum ProgressLayout {
    /// A bar that fills up to `length` bytes.
    Bar { length: u64, template: String, progress_chars: String, message: String },
    /// A spinner that shows the bytes moved so far, redrawn every
    /// `tick_millis` milliseconds.
    Spinner { template: String, tick_millis: u64, message: String },
}

pub open spec fn bar_template() -> Seq<char> {
    "{msg} [{bar:40.cyan/blue}] {bytes}/{total_bytes} ({bytes_per_sec}, eta {eta})"@
}

pub open spec fn spinner_template() -> Seq<char> {
    "{msg} {spinner} {bytes} transferred ({bytes_per_sec})"@
}

/// A byte bar when the total size is known and not zero (always for a
/// restore, whose input is a local file; for a backup, whenever the size
/// estimate worked); otherwise a spinner that shows the bytes moved so far.
/// Either way labelled with `label`.
pub fn progress_layout(total_bytes: Option<u64>, label: &str) -> (l: ProgressLayout)
    ensures
        match total_bytes {
            Some(total) if total > 0 => l matches ProgressLayout::Bar {
                length,
                template,
                progress_chars,
                message,
            } && length == total && template@ == bar_template() && progress_chars@ == "=>-"@
                && message@ == label@,
            _ => l matches ProgressLayout::Spinner { template, tick_millis, message }
                && template@ == spinner_template() && tick_millis == 120 && message@ == label@,
        },
{
    match total_bytes {
        Some(total) if total > 0 => ProgressLayout::Bar {
            length: total,
            template: String::from_str(
                "{msg} [{bar:40.cyan/blue}] {bytes}/{total_bytes} ({bytes_per_sec}, eta {eta})",
            ),
            progress_chars: String::from_str("=>-"),
            message: String::from_str(label),
        },
        _ => ProgressLayout::Spinner {
            template: String::from_str("{msg} {spinner} {bytes} transferred ({bytes_per_sec})"),
            tick_millis: 120,
            message: String::from_str(label),
        },
    }
}

} // verus!
