//! GPU utilisation probe: detection backends tried in priority order, and the
//! reading of what a backend printed.

use crate::text::{trim, trimmed, utf8_text};
use vstd::prelude::*;
use vstd::string::*;
use vstd::utf8::*;

verus! {

/// A utilisation of one hundred percent, in thousandths of a percent.
pub const FULL_SCALE: i64 = 100_000;

const PLUS: u8 = 43;

const MINUS: u8 = 45;

const POINT: u8 = 46;

const ZERO: u8 = 48;

const NINE: u8 = 57;

/// Whether `byte` is an ASCII decimal digit.
pub open spec fn is_digit(byte: u8) -> bool {
    48 <= byte <= 57
}

/// Whether `text` is made of decimal digits only.
pub open spec fn all_digits(text: Seq<u8>) -> bool {
    forall|i: int| 0 <= i < text.len() ==> is_digit(#[trigger] text[i])
}

/// The number that a run of decimal digits denotes.
pub open spec fn digits_value(digits: Seq<u8>) -> nat
    decreases digits.len(),
{
    if digits.len() == 0 {
        0
    } else {
        digits_value(digits.drop_last()) * 10 + (digits.last() - 48) as nat
    }
}

/// Whether `text` starts with a plus or minus sign.
pub open spec fn has_sign(text: Seq<u8>) -> bool {
    text.len() > 0 && (text[0] == 43 || text[0] == 45)
}

/// Whether `text` starts with a minus sign.
pub open spec fn is_negative(text: Seq<u8>) -> bool {
    text.len() > 0 && text[0] == 45
}

/// `text` without its sign, if it has one.
pub open spec fn magnitude_part(text: Seq<u8>) -> Seq<u8> {
    if has_sign(text) {
        text.subrange(1, text.len() as int)
    } else {
        text
    }
}

/// Whether `at` is where the first decimal point of `text` stands, or the
/// length of `text` if it has none.
pub open spec fn is_point_index(text: Seq<u8>, at: int) -> bool {
    &&& 0 <= at <= text.len()
    &&& forall|k: int| 0 <= k < at ==> #[trigger] text[k] != 46
    &&& at < text.len() ==> text[at] == 46
}

/// The index of the first decimal point of `text`, or its length if it has
/// none.
pub open spec fn point_index(text: Seq<u8>) -> int {
    choose|at: int| is_point_index(text, at)
}

/// The digits before the decimal point.
pub open spec fn whole_part(text: Seq<u8>) -> Seq<u8> {
    text.subrange(0, point_index(text))
}

/// The digits after the decimal point; empty if there is no point.
pub open spec fn fraction_part(text: Seq<u8>) -> Seq<u8> {
    if point_index(text) < text.len() {
        text.subrange(point_index(text) + 1, text.len() as int)
    } else {
        Seq::empty()
    }
}

/// Whether `text` is an unsigned decimal numeral: digits, optionally with one
/// decimal point among, before or after them, and at least one digit in all.
pub open spec fn is_numeral(text: Seq<u8>) -> bool {
    &&& all_digits(whole_part(text))
    &&& all_digits(fraction_part(text))
    &&& whole_part(text).len() + fraction_part(text).len() > 0
}

/// The digit of `fraction` at `place`, counting from the decimal point; zero
/// past its end.
pub open spec fn fraction_digit(fraction: Seq<u8>, place: int) -> nat {
    if 0 <= place < fraction.len() {
        (fraction[place] - 48) as nat
    } else {
        0
    }
}

/// The first three places of a fraction as a number of thousandths; further
/// places are cut off.
pub open spec fn fraction_thousandths(fraction: Seq<u8>) -> nat {
    fraction_digit(fraction, 0) * 100 + fraction_digit(fraction, 1) * 10 + fraction_digit(
        fraction,
        2,
    )
}

/// The value of an unsigned decimal numeral, in thousandths.
pub open spec fn numeral_thousandths(text: Seq<u8>) -> nat {
    digits_value(whole_part(text)) * 1000 + fraction_thousandths(fraction_part(text))
}

/// The value in thousandths of `text` read as a decimal number with an
/// optional sign, or `None` if it is not one.
pub open spec fn decimal_value(text: Seq<u8>) -> Option<int> {
    if is_numeral(magnitude_part(text)) {
        if is_negative(text) {
            Some(-(numeral_thousandths(magnitude_part(text)) as int))
        } else {
            Some(numeral_thousandths(magnitude_part(text)) as int)
        }
    } else {
        None
    }
}

/// `value` brought into the range from zero to one hundred percent.
pub open spec fn clamp_percent(value: int) -> i64 {
    if value < 0 {
        0
    } else if value > 100_000 {
        100_000
    } else {
        value as i64
    }
}

/// The utilisation that `text` states, in thousandths of a percent: its
/// decimal value brought into range, or `None` if it is not a decimal number.
pub open spec fn percent_of(text: Seq<u8>) -> Option<i64> {
    match decimal_value(text) {
        Some(value) => Some(clamp_percent(value)),
        None => None,
    }
}

/// A count of whole percent, held at one hundred once it gets there.
spec fn fewer_percent(value: nat) -> int {
    if value > 100 {
        100
    } else {
        value as int
    }
}

/// Every text has a first decimal point or none.
pub proof fn lemma_point_index_exists(text: Seq<u8>)
    ensures
        is_point_index(text, point_index(text)),
    decreases text.len(),
{
    if text.len() == 0 {
        assert(is_point_index(text, 0));
    } else if text[0] == 46 {
        assert(is_point_index(text, 0));
    } else {
        let rest = text.subrange(1, text.len() as int);
        lemma_point_index_exists(rest);
        let at = point_index(rest);
        assert forall|k: int| 0 <= k < at + 1 implies #[trigger] text[k] != 46 by {
            if k > 0 {
                assert(text[k] == rest[k - 1]);
            }
        }
        if at < rest.len() {
            assert(text[at + 1] == rest[at]);
        }
        assert(is_point_index(text, at + 1));
    }
}

/// The first decimal point of a text is where `is_point_index` says.
pub proof fn lemma_point_index(text: Seq<u8>, at: int)
    requires
        is_point_index(text, at),
    ensures
        point_index(text) == at,
{
    let chosen = point_index(text);
    assert(is_point_index(text, chosen));
    if chosen < at {
        assert(text[chosen] != 46);
    }
    if at < chosen {
        assert(text[at] != 46);
    }
}

/// Appending a digit to a run of digits multiplies its value by ten and adds
/// the digit.
proof fn lemma_digits_value_step(text: Seq<u8>, from: int, to: int)
    requires
        0 <= from <= to < text.len(),
    ensures
        digits_value(text.subrange(from, to + 1)) == digits_value(text.subrange(from, to)) * 10 + (
        text[to] - 48) as nat,
{
    assert(text.subrange(from, to + 1).drop_last() == text.subrange(from, to));
}

/// Reads `text` as a utilisation percentage. The text must be a decimal
/// number in full: an optional sign, then digits with at most one decimal
/// point. The value is cut to thousandths and brought into the range from
/// zero to one hundred percent.
pub fn parse_percent(text: &[u8]) -> (reading: Option<i64>)
    ensures
        reading == percent_of(text@),
        reading matches Some(value) ==> 0 <= value <= FULL_SCALE,
{
    let n = text.len();
    let negative = n > 0 && text[0] == MINUS;
    let start: usize = if n > 0 && (text[0] == PLUS || text[0] == MINUS) {
        1
    } else {
        0
    };
    let ghost body = magnitude_part(text@);
    assert(body == text@.subrange(start as int, n as int));
    let mut i: usize = start;
    let mut whole: i64 = 0;
    while i < n && ZERO <= text[i] && text[i] <= NINE
        invariant
            start <= i <= n,
            n == text@.len(),
            body == text@.subrange(start as int, n as int),
            forall|k: int| start <= k < i ==> is_digit(#[trigger] text@[k]),
            0 <= whole <= 100,
            whole == fewer_percent(digits_value(text@.subrange(start as int, i as int))),
        decreases n - i,
    {
        proof {
            lemma_digits_value_step(text@, start as int, i as int);
        }
        let digit: i64 = (text[i] - ZERO) as i64;
        let next: i64 = whole * 10 + digit;
        whole = if next > 100 {
            100
        } else {
            next
        };
        i = i + 1;
    }
    let point: usize = i;
    let ghost whole_digits = text@.subrange(start as int, point as int);
    if point < n && text[point] != POINT {
        proof {
            // A byte that is neither a digit nor the point stands before any
            // point, so the whole part is not made of digits.
            let at = point_index(body);
            lemma_point_index_exists(body);
            assert(is_point_index(body, at));
            assert(body[point - start] == text@[point as int]);
            if at <= point - start {
                if at < point - start {
                    assert(body[at] == text@[at + start]);
                    assert(is_digit(text@[at + start]));
                }
            } else {
                assert(whole_part(body)[point - start] == body[point - start]);
            }
        }
        return None;
    }
    proof {
        assert forall|k: int| 0 <= k < point - start implies #[trigger] body[k] != 46 by {
            assert(body[k] == text@[k + start]);
            assert(is_digit(text@[k + start]));
        }
        if point < n {
            assert(body[point - start] == text@[point as int]);
        }
        lemma_point_index(body, point - start);
        assert(whole_part(body) == whole_digits);
        assert(all_digits(whole_part(body))) by {
            assert forall|k: int| 0 <= k < whole_digits.len() implies is_digit(
                #[trigger] whole_digits[k],
            ) by {
                assert(whole_digits[k] == text@[k + start]);
            }
        }
    }
    let mut places: usize = 0;
    let mut thousandths: i64 = 0;
    if point < n {
        i = point + 1;
        let ghost fraction = fraction_part(body);
        assert(fraction == text@.subrange(point + 1, n as int));
        while i < n
            invariant
                point < i <= n,
                n == text@.len(),
                places == i - (point + 1),
                body == magnitude_part(text@),
                fraction == fraction_part(body),
                fraction == text@.subrange(point + 1, n as int),
                forall|k: int| point < k < i ==> is_digit(#[trigger] text@[k]),
                0 <= thousandths <= 999,
                thousandths == fraction_digit(fraction, 0) * (if places > 0 {
                    100nat
                } else {
                    0nat
                }) + fraction_digit(fraction, 1) * (if places > 1 {
                    10nat
                } else {
                    0nat
                }) + fraction_digit(fraction, 2) * (if places > 2 {
                    1nat
                } else {
                    0nat
                }),
            decreases n - i,
        {
            if !(ZERO <= text[i] && text[i] <= NINE) {
                proof {
                    assert(fraction[i - (point + 1)] == text@[i as int]);
                }
                return None;
            }
            let digit: i64 = (text[i] - ZERO) as i64;
            proof {
                assert(fraction[places as int] == text@[i as int]);
            }
            if places == 0 {
                thousandths = thousandths + digit * 100;
            } else if places == 1 {
                thousandths = thousandths + digit * 10;
            } else if places == 2 {
                thousandths = thousandths + digit;
            }
            places = places + 1;
            i = i + 1;
        }
        proof {
            assert(all_digits(fraction)) by {
                assert forall|k: int| 0 <= k < fraction.len() implies is_digit(
                    #[trigger] fraction[k],
                ) by {
                    assert(fraction[k] == text@[k + point + 1]);
                }
            }
            assert(places == fraction.len());
        }
    }
    if point - start + places == 0 {
        return None;
    }
    assert(is_numeral(body));
    assert(thousandths == fraction_thousandths(fraction_part(body)));
    if negative {
        Some(0)
    } else if whole >= 100 {
        Some(FULL_SCALE)
    } else {
        Some(whole * 1000 + thousandths)
    }
}

/// The utilisation that the raw output of a backend states: the output must
/// be valid UTF-8, and its text, trimmed, a decimal number.
pub open spec fn reading_of(raw: Seq<u8>) -> Option<i64> {
    if valid_utf8(raw) {
        percent_of(encode_utf8(trimmed(decode_utf8(raw))))
    } else {
        None
    }
}

/// What a backend contributes: nothing if it could not be run or read,
/// otherwise what its output states.
pub open spec fn answer_of(output: Option<Seq<u8>>) -> Option<i64> {
    match output {
        Some(raw) => reading_of(raw),
        None => None,
    }
}

/// The answer of the first backend that has one, in the order given.
pub open spec fn first_reading(outputs: Seq<Option<Seq<u8>>>) -> Option<i64>
    decreases outputs.len(),
{
    if outputs.len() == 0 {
        None
    } else if answer_of(outputs[0]) is Some {
        answer_of(outputs[0])
    } else {
        first_reading(outputs.subrange(1, outputs.len() as int))
    }
}

/// The raw outputs of the backends as plain sequences.
pub open spec fn outputs_view(outputs: Seq<Option<Vec<u8>>>) -> Seq<Option<Seq<u8>>> {
    outputs.map_values(
        |output: Option<Vec<u8>>|
            match output {
                Some(raw) => Some(raw@),
                None => None,
            },
    )
}

/// Reads the raw output of a backend.
pub fn read_output(raw: &[u8]) -> (reading: Option<i64>)
    ensures
        reading == reading_of(raw@),
        reading matches Some(value) ==> 0 <= value <= FULL_SCALE,
{
    match utf8_text(raw) {
        Some(text) => {
            proof {
                encode_utf8_decode_utf8(text@);
            }
            parse_percent(trim(text).as_bytes())
        },
        None => None,
    }
}

/// A way of finding out the GPU utilisation.
#[derive(Clone, Copy, Debug, PartialEq, Eq, Structural)]
pub enum GpuBackend {
    /// Ask the vendor's command-line tool.
    VendorTool,
    /// Read the busy percentage that the kernel driver exposes as a file.
    BusyPercentFile,
}

/// What has to be done outside to get a backend's raw output.
#[derive(Debug, PartialEq, Eq)]
pub enum ProbeRequest {
    /// Run `program` with `args` and take its standard output, whatever its
    /// exit status.
    Run { program: String, args: Vec<String> },
    /// Read the file at `path`.
    ReadFile { path: String },
}

/// Where a probe stands.
#[derive(Clone, Copy, Debug, PartialEq, Eq, Structural)]
pub enum ProbeStep {
    /// The output of this backend is wanted next.
    Query(GpuBackend),
    /// The probe has ended, with a reading or without one.
    Done(Option<i64>),
}

/// The backend that is tried first.
pub open spec fn first_backend() -> GpuBackend {
    GpuBackend::VendorTool
}

/// The backend that is tried when `backend` has no answer, if there is one.
pub open spec fn backend_after(backend: GpuBackend) -> Option<GpuBackend> {
    match backend {
        GpuBackend::VendorTool => Some(GpuBackend::BusyPercentFile),
        GpuBackend::BusyPercentFile => None,
    }
}

/// The backends in the order in which they are tried.
pub open spec fn backend_order() -> Seq<GpuBackend> {
    seq![GpuBackend::VendorTool, GpuBackend::BusyPercentFile]
}

/// Where a probe stands once `asked` has given `output`: done at the first
/// answer, else on to the next backend, and done without a reading when none
/// is left.
pub open spec fn step_after(asked: GpuBackend, output: Option<Seq<u8>>) -> ProbeStep {
    if answer_of(output) is Some {
        ProbeStep::Done(answer_of(output))
    } else {
        match backend_after(asked) {
            Some(next) => ProbeStep::Query(next),
            None => ProbeStep::Done(None),
        }
    }
}

impl GpuBackend {
    /// What to do outside to get this backend's raw output.
    pub fn request(&self) -> (request: ProbeRequest)
        ensures
            *self == GpuBackend::VendorTool ==> (request matches ProbeRequest::Run { program, args }
                && program@ == "nvidia-smi"@ && args@.len() == 2 && args@[0]@
                == "--query-gpu=utilization.gpu"@ && args@[1]@ == "--format=csv,noheader,nounits"@),
            *self == GpuBackend::BusyPercentFile ==> (request matches ProbeRequest::ReadFile { path }
                && path@ == "/sys/class/drm/card0/device/gpu_busy_percent"@),
    {
        match self {
            GpuBackend::VendorTool => {
                let mut args: Vec<String> = Vec::new();
                args.push("--query-gpu=utilization.gpu".to_owned());
                args.push("--format=csv,noheader,nounits".to_owned());
                ProbeRequest::Run { program: "nvidia-smi".to_owned(), args }
            },
            GpuBackend::BusyPercentFile => ProbeRequest::ReadFile {
                path: "/sys/class/drm/card0/device/gpu_busy_percent".to_owned(),
            },
        }
    }
}

/// The GPU utilisation probe.
#[derive(Clone, Copy, Debug)]
pub struct GpuMonitor;

impl GpuMonitor {
    /// The backends in the order in which they are tried.
    pub fn backends() -> (order: Vec<GpuBackend>)
        ensures
            order@ == backend_order(),
    {
        let mut order: Vec<GpuBackend> = Vec::new();
        order.push(GpuBackend::VendorTool);
        order.push(GpuBackend::BusyPercentFile);
        order
    }

    /// The first step of a probe.
    pub fn begin() -> (step: ProbeStep)
        ensures
            step == ProbeStep::Query(first_backend()),
    {
        ProbeStep::Query(GpuBackend::VendorTool)
    }

    /// The step that follows once the backend `asked` has given `output`, or
    /// `None` for a backend that could not be run or read.
    pub fn proceed(asked: GpuBackend, output: Option<&[u8]>) -> (step: ProbeStep)
        ensures
            step == step_after(
                asked,
                match output {
                    Some(raw) => Some(raw@),
                    None => None,
                },
            ),
            step matches ProbeStep::Done(Some(value)) ==> 0 <= value <= FULL_SCALE,
    {
        let answer = match output {
            Some(raw) => read_output(raw),
            None => None,
        };
        match answer {
            Some(value) => ProbeStep::Done(Some(value)),
            None => match asked {
                GpuBackend::VendorTool => ProbeStep::Query(GpuBackend::BusyPercentFile),
                GpuBackend::BusyPercentFile => ProbeStep::Done(None),
            },
        }
    }

    /// The utilisation in thousandths of a percent, from what the backends
    /// gave: `outputs` holds one entry per backend in priority order, `None`
    /// for one that could not be run or read. The first backend whose output
    /// states a utilisation decides; without one there is no reading.
    pub fn get_usage(outputs: &Vec<Option<Vec<u8>>>) -> (usage: Option<i64>)
        ensures
            usage == first_reading(outputs_view(outputs@)),
            usage is None <==> forall|i: int|
                0 <= i < outputs@.len() ==> answer_of(#[trigger] outputs_view(outputs@)[i]) is None,
            usage matches Some(value) ==> 0 <= value <= FULL_SCALE,
    {
        let ghost all = outputs_view(outputs@);
        assert(all.subrange(0, all.len() as int) == all);
        let mut i: usize = 0;
        while i < outputs.len()
            invariant
                0 <= i <= outputs@.len(),
                all == outputs_view(outputs@),
                first_reading(all) == first_reading(all.subrange(i as int, all.len() as int)),
                forall|k: int| 0 <= k < i ==> answer_of(#[trigger] all[k]) is None,
            decreases outputs@.len() - i,
        {
            let ghost rest = all.subrange(i as int, all.len() as int);
            assert(rest[0] == all[i as int]);
            assert(rest.subrange(1, rest.len() as int) == all.subrange(i + 1, all.len() as int));
            let answer = match &outputs[i] {
                Some(raw) => read_output(raw.as_slice()),
                None => None,
            };
            if let Some(value) = answer {
                return Some(value);
            }
            i = i + 1;
        }
        None
    }
}

/// A probe that is stepped through both backends ends with the reading that
/// `get_usage` gives for their outputs.
pub proof fn lemma_steps_end_in_first_reading(vendor: Option<Seq<u8>>, file: Option<Seq<u8>>)
    ensures
        match step_after(first_backend(), vendor) {
            ProbeStep::Done(reading) => reading == first_reading(seq![vendor, file]),
            ProbeStep::Query(next) => next == GpuBackend::BusyPercentFile && step_after(next, file)
                == ProbeStep::Done(first_reading(seq![vendor, file])),
        },
{
    let both = seq![vendor, file];
    let rest = both.subrange(1, both.len() as int);
    let none = rest.subrange(1, rest.len() as int);
    assert(both[0] == vendor);
    assert(rest[0] == file);
    assert(first_reading(none) is None);
    assert(first_reading(rest) == answer_of(file));
}

} // verus!
