use vstd::prelude::*;

use core::cmp::Ordering;

use crate::text::{decimal, push_char, push_decimal, push_signed_decimal, push_text, signed_decimal};
use crate::unit::{unit_symbol, Unit};

verus! {

/// Implement this if you have a value which can be converted to a performance metric value.
pub trait ToPerfString {
    /// The text that stands for this value in performance data and in messages.
    spec fn perf_view(&self) -> Seq<char>;

    fn to_perf_string(&self) -> (r: String)
        ensures
            r@ == self.perf_view(),
    ;
}

/// The order of two integers.
pub open spec fn int_cmp(a: int, b: int) -> Ordering {
    if a < b {
        Ordering::Less
    } else if a == b {
        Ordering::Equal
    } else {
        Ordering::Greater
    }
}

/// A value that a metric can carry: it has a text form and a total order, given by an integer
/// magnitude, in which it is compared with its thresholds.
pub trait MetricValue: ToPerfString {
    /// The position of this value in the order.
    spec fn magnitude(&self) -> int;

    /// Compares this value with another one.
    fn compare(&self, other: &Self) -> (r: Ordering)
        ensures
            r == int_cmp(self.magnitude(), other.magnitude()),
    ;
}

impl ToPerfString for u8 {
    open spec fn perf_view(&self) -> Seq<char> {
        decimal(*self as nat)
    }

    fn to_perf_string(&self) -> (r: String) {
        let mut s = String::new();
        push_decimal(&mut s, *self as u128);
        s
    }
}

impl MetricValue for u8 {
    open spec fn magnitude(&self) -> int {
        *self as int
    }

    fn compare(&self, other: &u8) -> (r: Ordering) {
        if *self < *other {
            Ordering::Less
        } else if *self == *other {
            Ordering::Equal
        } else {
            Ordering::Greater
        }
    }
}

impl ToPerfString for u16 {
    open spec fn perf_view(&self) -> Seq<char> {
        decimal(*self as nat)
    }

    fn to_perf_string(&self) -> (r: String) {
        let mut s = String::new();
        push_decimal(&mut s, *self as u128);
        s
    }
}

impl MetricValue for u16 {
    open spec fn magnitude(&self) -> int {
        *self as int
    }

    fn compare(&self, other: &u16) -> (r: Ordering) {
        if *self < *other {
            Ordering::Less
        } else if *self == *other {
            Ordering::Equal
        } else {
            Ordering::Greater
        }
    }
}

impl ToPerfString for u32 {
    open spec fn perf_view(&self) -> Seq<char> {
        decimal(*self as nat)
    }

    fn to_perf_string(&self) -> (r: String) {
        let mut s = String::new();
        push_decimal(&mut s, *self as u128);
        s
    }
}

impl MetricValue for u32 {
    open spec fn magnitude(&self) -> int {
        *self as int
    }

    fn compare(&self, other: &u32) -> (r: Ordering) {
        if *self < *other {
            Ordering::Less
        } else if *self == *other {
            Ordering::Equal
        } else {
            Ordering::Greater
        }
    }
}

impl ToPerfString for u64 {
    open spec fn perf_view(&self) -> Seq<char> {
        decimal(*self as nat)
    }

    fn to_perf_string(&self) -> (r: String) {
        let mut s = String::new();
        push_decimal(&mut s, *self as u128);
        s
    }
}

impl MetricValue for u64 {
    open spec fn magnitude(&self) -> int {
        *self as int
    }

    fn compare(&self, other: &u64) -> (r: Ordering) {
        if *self < *other {
            Ordering::Less
        } else if *self == *other {
            Ordering::Equal
        } else {
            Ordering::Greater
        }
    }
}

impl ToPerfString for u128 {
    open spec fn perf_view(&self) -> Seq<char> {
        decimal(*self as nat)
    }

    fn to_perf_string(&self) -> (r: String) {
        let mut s = String::new();
        push_decimal(&mut s, *self as u128);
        s
    }
}

impl MetricValue for u128 {
    open spec fn magnitude(&self) -> int {
        *self as int
    }

    fn compare(&self, other: &u128) -> (r: Ordering) {
        if *self < *other {
            Ordering::Less
        } else if *self == *other {
            Ordering::Equal
        } else {
            Ordering::Greater
        }
    }
}

impl ToPerfString for usize {
    open spec fn perf_view(&self) -> Seq<char> {
        decimal(*self as nat)
    }

    fn to_perf_string(&self) -> (r: String) {
        let mut s = String::new();
        push_decimal(&mut s, *self as u128);
        s
    }
}

impl MetricValue for usize {
    open spec fn magnitude(&self) -> int {
        *self as int
    }

    fn compare(&self, other: &usize) -> (r: Ordering) {
        if *self < *other {
            Ordering::Less
        } else if *self == *other {
            Ordering::Equal
        } else {
            Ordering::Greater
        }
    }
}

impl ToPerfString for i8 {
    open spec fn perf_view(&self) -> Seq<char> {
        signed_decimal(*self as int)
    }

    fn to_perf_string(&self) -> (r: String) {
        let mut s = String::new();
        push_signed_decimal(&mut s, *self as i128);
        s
    }
}

impl MetricValue for i8 {
    open spec fn magnitude(&self) -> int {
        *self as int
    }

    fn compare(&self, other: &i8) -> (r: Ordering) {
        if *self < *other {
            Ordering::Less
        } else if *self == *other {
            Ordering::Equal
        } else {
            Ordering::Greater
        }
    }
}

impl ToPerfString for i16 {
    open spec fn perf_view(&self) -> Seq<char> {
        signed_decimal(*self as int)
    }

    fn to_perf_string(&self) -> (r: String) {
        let mut s = String::new();
        push_signed_decimal(&mut s, *self as i128);
        s
    }
}

impl MetricValue for i16 {
    open spec fn magnitude(&self) -> int {
        *self as int
    }

    fn compare(&self, other: &i16) -> (r: Ordering) {
        if *self < *other {
            Ordering::Less
        } else if *self == *other {
            Ordering::Equal
        } else {
            Ordering::Greater
        }
    }
}

impl ToPerfString for i32 {
    open spec fn perf_view(&self) -> Seq<char> {
        signed_decimal(*self as int)
    }

    fn to_perf_string(&self) -> (r: String) {
        let mut s = String::new();
        push_signed_decimal(&mut s, *self as i128);
        s
    }
}

impl MetricValue for i32 {
    open spec fn magnitude(&self) -> int {
        *self as int
    }

    fn compare(&self, other: &i32) -> (r: Ordering) {
        if *self < *other {
            Ordering::Less
        } else if *self == *other {
            Ordering::Equal
        } else {
            Ordering::Greater
        }
    }
}

impl ToPerfString for i64 {
    open spec fn perf_view(&self) -> Seq<char> {
        signed_decimal(*self as int)
    }

    fn to_perf_string(&self) -> (r: String) {
        let mut s = String::new();
        push_signed_decimal(&mut s, *self as i128);
        s
    }
}

impl MetricValue for i64 {
    open spec fn magnitude(&self) -> int {
        *self as int
    }

    fn compare(&self, other: &i64) -> (r: Ordering) {
        if *self < *other {
            Ordering::Less
        } else if *self == *other {
            Ordering::Equal
        } else {
            Ordering::Greater
        }
    }
}

impl ToPerfString for i128 {
    open spec fn perf_view(&self) -> Seq<char> {
        signed_decimal(*self as int)
    }

    fn to_perf_string(&self) -> (r: String) {
        let mut s = String::new();
        push_signed_decimal(&mut s, *self as i128);
        s
    }
}

impl MetricValue for i128 {
    open spec fn magnitude(&self) -> int {
        *self as int
    }

    fn compare(&self, other: &i128) -> (r: Ordering) {
        if *self < *other {
            Ordering::Less
        } else if *self == *other {
            Ordering::Equal
        } else {
            Ordering::Greater
        }
    }
}

impl ToPerfString for isize {
    open spec fn perf_view(&self) -> Seq<char> {
        signed_decimal(*self as int)
    }

    fn to_perf_string(&self) -> (r: String) {
        let mut s = String::new();
        push_signed_decimal(&mut s, *self as i128);
        s
    }
}

impl MetricValue for isize {
    open spec fn magnitude(&self) -> int {
        *self as int
    }

    fn compare(&self, other: &isize) -> (r: Ordering) {
        if *self < *other {
            Ordering::Less
        } else if *self == *other {
            Ordering::Equal
        } else {
            Ordering::Greater
        }
    }
}

/// The text of a value that may be absent: empty when it is.
pub open spec fn opt_text<T: ToPerfString>(v: Option<&T>) -> Seq<char> {
    match v {
        Some(x) => x.perf_view(),
        None => seq![],
    }
}

/// A metric name with `=` replaced by `_` and every `'` doubled.
pub open spec fn escape_name(s: Seq<char>) -> Seq<char>
    decreases s.len(),
{
    if s.len() == 0 {
        seq![]
    } else {
        let rest = escape_name(s.drop_last());
        let c = s.last();
        if c == '=' {
            rest.push('_')
        } else if c == '\'' {
            rest.push('\'').push('\'')
        } else {
            rest.push(c)
        }
    }
}

/// The label of a metric in performance data: the escaped name between single quotes, so that a
/// name with a space in it is wrapped in quotes as the format asks.
pub open spec fn perf_label(name: Seq<char>) -> Seq<char> {
    seq!['\''] + escape_name(name) + seq!['\'']
}

/// The performance-data fragment `'<name>'=<value><unit>;<warning>;<critical>;<min>;<max>`, where
/// an absent field is empty and keeps its place.
pub open spec fn perf_fragment(
    name: Seq<char>,
    value: Seq<char>,
    unit: Seq<char>,
    warning: Seq<char>,
    critical: Seq<char>,
    minimum: Seq<char>,
    maximum: Seq<char>,
) -> Seq<char> {
    perf_label(name) + seq!['='] + value + unit + seq![';'] + warning + seq![';'] + critical + seq![
        ';',
    ] + minimum + seq![';'] + maximum
}

/// Appends the label of the metric `name`.
fn push_label(out: &mut String, name: &str)
    ensures
        final(out)@ == old(out)@ + perf_label(name@),
{
    push_char(out, '\'');
    let n = name.unicode_len();
    let mut i: usize = 0;
    while i < n
        invariant
            n == name@.len(),
            i <= n,
            out@ == old(out)@ + seq!['\''] + escape_name(name@.subrange(0, i as int)),
        decreases n - i,
    {
        let c = name.get_char(i);
        assert(name@.subrange(0, i + 1).drop_last() =~= name@.subrange(0, i as int));
        if c == '=' {
            push_char(out, '_');
        } else if c == '\'' {
            push_char(out, '\'');
            push_char(out, '\'');
        } else {
            push_char(out, c);
        }
        i += 1;
    }
    assert(name@.subrange(0, n as int) =~= name@);
    push_char(out, '\'');
    assert(final(out)@ =~= old(out)@ + perf_label(name@));
}

/// Appends the text of `v`, or nothing when it is absent.
fn push_optional<T: ToPerfString>(out: &mut String, v: Option<&T>)
    ensures
        final(out)@ == old(out)@ + opt_text(v),
{
    match v {
        Some(x) => {
            let t = x.to_perf_string();
            push_text(out, t.as_str());
        },
        None => {
            assert(old(out)@ + seq![] =~= old(out)@);
        },
    }
}

/// Newtype wrapper around a string to ensure only valid strings end up in the final output.
/// This is used for the performance data / metric part of the output.
#[derive(Debug, Clone, PartialEq, Eq, PartialOrd, Ord)]
pub struct PerfString(String);

impl View for PerfString {
    type V = Seq<char>;

    closed spec fn view(&self) -> Seq<char> {
        self.0@
    }
}

impl PerfString {
    /// Renders one performance-data fragment.
    pub fn new<T: ToPerfString>(
        name: &str,
        value: &T,
        unit: Unit,
        warning: Option<&T>,
        critical: Option<&T>,
        minimum: Option<&T>,
        maximum: Option<&T>,
    ) -> (r: PerfString)
        ensures
            r@ == perf_fragment(
                name@,
                value.perf_view(),
                unit_symbol(unit),
                opt_text(warning),
                opt_text(critical),
                opt_text(minimum),
                opt_text(maximum),
            ),
    {
        let mut s = String::new();
        push_label(&mut s, name);
        push_char(&mut s, '=');
        let v = value.to_perf_string();
        push_text(&mut s, v.as_str());
        push_text(&mut s, unit.as_str());
        push_char(&mut s, ';');
        push_optional(&mut s, warning);
        push_char(&mut s, ';');
        push_optional(&mut s, critical);
        push_char(&mut s, ';');
        push_optional(&mut s, minimum);
        push_char(&mut s, ';');
        push_optional(&mut s, maximum);
        assert(s@ =~= perf_fragment(
            name@,
            value.perf_view(),
            unit_symbol(unit),
            opt_text(warning),
            opt_text(critical),
            opt_text(minimum),
            opt_text(maximum),
        ));
        PerfString(s)
    }

    /// The rendered fragment.
    pub fn as_str(&self) -> (r: &str)
        ensures
            r@ == self@,
    {
        self.0.as_str()
    }
}

/// What a [PerfData] holds.
pub struct PerfDataView<T> {
    pub name: Seq<char>,
    pub value: T,
    pub unit: Unit,
    pub warning: Option<T>,
    pub critical: Option<T>,
    pub minimum: Option<T>,
    pub maximum: Option<T>,
}

/// The text of a bound that may be absent.
pub open spec fn opt_perf<T: ToPerfString>(v: Option<T>) -> Seq<char> {
    match v {
        Some(x) => x.perf_view(),
        None => seq![],
    }
}

/// The performance-data fragment of a [PerfData].
pub open spec fn perf_data_fragment<T: ToPerfString>(p: PerfDataView<T>) -> Seq<char> {
    perf_fragment(
        p.name,
        p.value.perf_view(),
        unit_symbol(p.unit),
        opt_perf(p.warning),
        opt_perf(p.critical),
        opt_perf(p.minimum),
        opt_perf(p.maximum),
    )
}

/// A reference to the value of an option.
pub(crate) fn as_ref_opt<T>(v: &Option<T>) -> (r: Option<&T>)
    ensures
        r matches Some(x) ==> v == Some(*x),
        r is None ==> v is None,
{
    match v {
        Some(x) => Some(x),
        None => None,
    }
}

/// Represents a single performance metric.
#[derive(Debug, Clone)]
pub struct PerfData<T> {
    name: String,
    value: T,
    unit: Unit,
    warning: Option<T>,
    critical: Option<T>,
    minimum: Option<T>,
    maximum: Option<T>,
}

impl<T> View for PerfData<T> {
    type V = PerfDataView<T>;

    closed spec fn view(&self) -> PerfDataView<T> {
        PerfDataView {
            name: self.name@,
            value: self.value,
            unit: self.unit,
            warning: self.warning,
            critical: self.critical,
            minimum: self.minimum,
            maximum: self.maximum,
        }
    }
}

impl<T: ToPerfString> PerfData<T> {
    pub fn new(name: &str, value: T) -> (r: PerfData<T>)
        ensures
            r@ == (PerfDataView {
                name: name@,
                value,
                unit: Unit::Unitless,
                warning: None,
                critical: None,
                minimum: None,
                maximum: None,
            }),
    {
        PerfData {
            name: name.to_owned(),
            value,
            unit: Unit::Unitless,
            warning: None,
            critical: None,
            minimum: None,
            maximum: None,
        }
    }

    pub fn with_thresholds(self, warning: Option<T>, critical: Option<T>) -> (r: PerfData<T>)
        ensures
            r@ == (PerfDataView { warning, critical, ..self@ }),
    {
        let mut p = self;
        p.warning = warning;
        p.critical = critical;
        p
    }

    pub fn with_minimum(self, minimum: T) -> (r: PerfData<T>)
        ensures
            r@ == (PerfDataView { minimum: Some(minimum), ..self@ }),
    {
        let mut p = self;
        p.minimum = Some(minimum);
        p
    }

    pub fn with_maximum(self, maximum: T) -> (r: PerfData<T>)
        ensures
            r@ == (PerfDataView { maximum: Some(maximum), ..self@ }),
    {
        let mut p = self;
        p.maximum = Some(maximum);
        p
    }

    pub fn with_unit(self, unit: Unit) -> (r: PerfData<T>)
        ensures
            r@ == (PerfDataView { unit, ..self@ }),
    {
        let mut p = self;
        p.unit = unit;
        p
    }

    /// Renders this metric as a performance-data fragment.
    pub fn into_perf_string(self) -> (r: PerfString)
        ensures
            r@ == perf_data_fragment(self@),
    {
        let w = as_ref_opt(&self.warning);
        let c = as_ref_opt(&self.critical);
        let lo = as_ref_opt(&self.minimum);
        let hi = as_ref_opt(&self.maximum);
        assert(opt_text(w) == opt_perf(self@.warning));
        assert(opt_text(c) == opt_perf(self@.critical));
        assert(opt_text(lo) == opt_perf(self@.minimum));
        assert(opt_text(hi) == opt_perf(self@.maximum));
        PerfString::new(self.name.as_str(), &self.value, self.unit, w, c, lo, hi)
    }
}

impl<T: ToPerfString> From<PerfData<T>> for PerfString {
    fn from(perf_data: PerfData<T>) -> (r: PerfString)
        ensures
            r@ == perf_data_fragment(perf_data@),
    {
        perf_data.into_perf_string()
    }
}

/// The result of a conversion is stated over views, in the `ensures` of `from` and of
/// [PerfData::into_perf_string]; a spec value of the result itself is not given.
impl<T: ToPerfString> vstd::std_specs::convert::FromSpecImpl<PerfData<T>> for PerfString {
    open spec fn obeys_from_spec() -> bool {
        false
    }

    open spec fn from_spec(v: PerfData<T>) -> PerfString {
        arbitrary()
    }
}

} // verus!
