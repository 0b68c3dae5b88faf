//! Where a download is saved: the folder and file name that a destination and an
//! optional name hint resolve to.
use chrono::{Datelike, Timelike};
use vstd::prelude::*;
use vstd::string::StringExecFns;

verus! {

/// Where to save a download: a folder, a file basename, both, or neither given.
pub enum Destination {
    GivenFolderGivenFileBasename(String, String),
    GivenFolderGuessFileBasename(String),
    DefaultFolderGivenFileBasename(String),
    Default,
}

/// A calendar time in UTC, field by field.
#[derive(Debug, Clone, Copy, PartialEq, Eq)]
pub struct Timestamp {
    pub year: i32,
    pub month: u32,
    pub day: u32,
    pub hour: u32,
    pub minute: u32,
    pub second: u32,
}

impl Timestamp {
    pub open spec fn wf(&self) -> bool {
        &&& 1 <= self.month <= 12
        &&& 1 <= self.day <= 31
        &&& self.hour < 24
        &&& self.minute < 60
        &&& self.second < 60
    }
}

/// Relies on `chrono::Utc::now` and the `Datelike` and `Timelike` getters, whose
/// documentation gives the range of each field.
#[verifier::external_body]
fn utc_now() -> (r: Timestamp)
    ensures
        r.wf(),
{
    let now = chrono::Utc::now();
    Timestamp {
        year: now.year(),
        month: now.month(),
        day: now.day(),
        hour: now.hour(),
        minute: now.minute(),
        second: now.second(),
    }
}

pub assume_specification<T>[ rand::random::<T> ]() -> (r: T)
    where
        rand::distributions::Standard: rand::distributions::Distribution<T>,
;

/// Relies on `String::push`: the character is appended.
#[verifier::external_body]
pub(crate) fn push_char(s: &mut String, c: char)
    ensures
        final(s)@ == old(s)@.push(c),
{
    s.push(c);
}

pub open spec fn digit_char(d: int) -> char {
    if d == 0 {
        '0'
    } else if d == 1 {
        '1'
    } else if d == 2 {
        '2'
    } else if d == 3 {
        '3'
    } else if d == 4 {
        '4'
    } else if d == 5 {
        '5'
    } else if d == 6 {
        '6'
    } else if d == 7 {
        '7'
    } else if d == 8 {
        '8'
    } else {
        '9'
    }
}

pub open spec fn is_digit(c: char) -> bool {
    '0' <= c <= '9'
}

fn digit(d: u32) -> (c: char)
    requires
        d < 10,
    ensures
        c == digit_char(d as int),
        is_digit(c),
{
    match d {
        0 => '0',
        1 => '1',
        2 => '2',
        3 => '3',
        4 => '4',
        5 => '5',
        6 => '6',
        7 => '7',
        8 => '8',
        _ => '9',
    }
}

/// The decimal digits of `n`, without leading zeros.
pub open spec fn decimal(n: nat) -> Seq<char>
    decreases n,
{
    if n < 10 {
        seq![digit_char(n as int)]
    } else {
        decimal(n / 10).push(digit_char((n % 10) as int))
    }
}

/// The last `width` decimal digits of `n`, zero-padded.
pub open spec fn padded(n: nat, width: nat) -> Seq<char>
    decreases width,
{
    if width == 0 {
        Seq::empty()
    } else {
        padded(n / 10, (width - 1) as nat).push(digit_char((n % 10) as int))
    }
}

proof fn lemma_decimal_digits(n: nat)
    ensures
        decimal(n).len() >= 1,
        forall|i: int| 0 <= i < decimal(n).len() ==> is_digit(#[trigger] decimal(n)[i]),
    decreases n,
{
    if n >= 10 {
        lemma_decimal_digits(n / 10);
    }
}

proof fn lemma_padded_digits(n: nat, width: nat)
    ensures
        padded(n, width).len() == width,
        forall|i: int| 0 <= i < width ==> is_digit(#[trigger] padded(n, width)[i]),
    decreases width,
{
    if width > 0 {
        lemma_padded_digits(n / 10, (width - 1) as nat);
    }
}

pub(crate) fn write_decimal(s: &mut String, n: u32)
    ensures
        final(s)@ == old(s)@ + decimal(n as nat),
    decreases n,
{
    if n >= 10 {
        write_decimal(s, n / 10);
    }
    push_char(s, digit(n % 10));
}

fn write_padded(s: &mut String, n: u32, width: u32)
    ensures
        final(s)@ == old(s)@ + padded(n as nat, width as nat),
    decreases width,
{
    if width > 0 {
        write_padded(s, n / 10, width - 1);
        push_char(s, digit(n % 10));
    }
}

/// The year as `%Y` writes it: four digits, zero-padded, with a sign outside 0..=9999.
pub open spec fn year_text(year: int) -> Seq<char> {
    if year < 0 {
        seq!['-'] + year_digits((-year) as nat)
    } else if year > 9999 {
        seq!['+'] + year_digits(year as nat)
    } else {
        year_digits(year as nat)
    }
}

/// At least four digits: zero-padded below 10000.
pub open spec fn year_digits(n: nat) -> Seq<char> {
    if n > 9999 {
        decimal(n)
    } else {
        padded(n, 4)
    }
}

fn write_year_digits(s: &mut String, n: u32)
    ensures
        final(s)@ == old(s)@ + year_digits(n as nat),
{
    if n > 9999 {
        write_decimal(s, n);
    } else {
        write_padded(s, n, 4);
    }
}

/// The time written as `YYYYMMDD-HHMMSS`.
pub open spec fn stamp_text(t: Timestamp) -> Seq<char> {
    year_text(t.year as int) + padded(t.month as nat, 2) + padded(t.day as nat, 2) + seq!['-']
        + padded(t.hour as nat, 2) + padded(t.minute as nat, 2) + padded(t.second as nat, 2)
}

/// A generated file basename: the time stamp, a hyphen, and a number in decimal.
pub open spec fn generated_basename(t: Timestamp, n: u32) -> Seq<char> {
    stamp_text(t) + seq!['-'] + decimal(n as nat)
}

pub open spec fn all_digits(s: Seq<char>) -> bool {
    forall|i: int| 0 <= i < s.len() ==> is_digit(#[trigger] s[i])
}

/// `YYYYMMDD-HHMMSS-N`: eight digits, a hyphen, six digits, a hyphen, and at
/// least one digit.
pub open spec fn has_basename_shape(s: Seq<char>) -> bool {
    &&& s.len() >= 17
    &&& all_digits(s.subrange(0, 8))
    &&& s[8] == '-'
    &&& all_digits(s.subrange(9, 15))
    &&& s[15] == '-'
    &&& all_digits(s.subrange(16, s.len() as int))
}

/// A basename generated in the years 0 to 9999 has the shape `YYYYMMDD-HHMMSS-N`.
pub proof fn lemma_generated_shape(t: Timestamp, n: u32)
    requires
        0 <= t.year <= 9999,
    ensures
        has_basename_shape(generated_basename(t, n)),
{
    lemma_padded_digits(t.year as nat, 4);
    lemma_padded_digits(t.month as nat, 2);
    lemma_padded_digits(t.day as nat, 2);
    lemma_padded_digits(t.hour as nat, 2);
    lemma_padded_digits(t.minute as nat, 2);
    lemma_padded_digits(t.second as nat, 2);
    lemma_decimal_digits(n as nat);
    let s = generated_basename(t, n);
    let date = padded(t.year as nat, 4) + padded(t.month as nat, 2) + padded(t.day as nat, 2);
    let time = padded(t.hour as nat, 2) + padded(t.minute as nat, 2) + padded(t.second as nat, 2);
    assert(s =~= date + seq!['-'] + time + seq!['-'] + decimal(n as nat));
    assert(s.subrange(0, 8) =~= date);
    assert(s.subrange(9, 15) =~= time);
    assert(s.subrange(16, s.len() as int) =~= decimal(n as nat));
    assert forall|i: int| 0 <= i < 8 implies is_digit(#[trigger] date[i]) by {
        if i >= 4 && i < 6 {
            assert(date[i] == padded(t.month as nat, 2)[i - 4]);
        } else if i >= 6 {
            assert(date[i] == padded(t.day as nat, 2)[i - 6]);
        }
    }
    assert forall|i: int| 0 <= i < 6 implies is_digit(#[trigger] time[i]) by {
        if i >= 2 && i < 4 {
            assert(time[i] == padded(t.minute as nat, 2)[i - 2]);
        } else if i >= 4 {
            assert(time[i] == padded(t.second as nat, 2)[i - 4]);
        }
    }
}

/// The basename generated from a time and a number.
pub fn file_basename_from(t: &Timestamp, n: u32) -> (r: String)
    ensures
        r@ == generated_basename(*t, n),
        0 <= t.year <= 9999 ==> has_basename_shape(r@),
{
    let mut s = String::new();
    if t.year < 0 {
        push_char(&mut s, '-');
        let y: u32 = if t.year == i32::MIN {
            2147483648u32
        } else {
            (-t.year) as u32
        };
        write_year_digits(&mut s, y);
    } else if t.year > 9999 {
        push_char(&mut s, '+');
        write_year_digits(&mut s, t.year as u32);
    } else {
        write_year_digits(&mut s, t.year as u32);
    }
    write_padded(&mut s, t.month, 2);
    write_padded(&mut s, t.day, 2);
    push_char(&mut s, '-');
    write_padded(&mut s, t.hour, 2);
    write_padded(&mut s, t.minute, 2);
    write_padded(&mut s, t.second, 2);
    push_char(&mut s, '-');
    write_decimal(&mut s, n);
    assert(s@ =~= generated_basename(*t, n));
    if 0 <= t.year && t.year <= 9999 {
        proof {
            lemma_generated_shape(*t, n);
        }
    }
    s
}

/// A fresh basename: the current UTC time and a random 32-bit number.
pub fn generate_random_file_basename() -> (r: String)
    ensures
        exists|t: Timestamp, n: u32| t.wf() && r@ == generated_basename(t, n),
        r@.len() > 0,
{
    let n: u32 = rand::random::<u32>();
    let t = utc_now();
    let r = file_basename_from(&t, n);
    proof {
        lemma_decimal_digits(n as nat);
    }
    r
}

/// The folder that a destination names, or `default_folder` where it names none
/// or an empty one; `.` where that is empty too.
pub open spec fn chosen_folder(d: Destination, default_folder: Seq<char>) -> Seq<char> {
    let f = match d {
        Destination::GivenFolderGivenFileBasename(f, _) => f@,
        Destination::GivenFolderGuessFileBasename(f) => f@,
        _ => default_folder,
    };
    if f.len() > 0 {
        f
    } else if default_folder.len() > 0 {
        default_folder
    } else {
        seq!['.']
    }
}

/// The basename that a destination names, or else the hint; `None` where neither
/// gives a non-empty one, and a basename must be generated.
pub open spec fn chosen_basename(d: Destination, hint: Option<Seq<char>>) -> Option<Seq<char>> {
    let b = match d {
        Destination::GivenFolderGivenFileBasename(_, b) => Some(b@),
        Destination::DefaultFolderGivenFileBasename(b) => Some(b@),
        _ => hint,
    };
    match b {
        Some(b) => if b.len() > 0 {
            Some(b)
        } else {
            None
        },
        None => None,
    }
}

pub open spec fn hint_view(hint: Option<&str>) -> Option<Seq<char>> {
    match hint {
        Some(h) => Some(h@),
        None => None,
    }
}

/// `folder/basename.extension`
pub open spec fn file_path(folder: Seq<char>, basename: Seq<char>, extension: Seq<char>) -> Seq<char> {
    folder + seq!['/'] + basename + seq!['.'] + extension
}

/// The path a destination resolves to, with `generated` as the basename where
/// neither the destination nor the hint gives one.
pub open spec fn resolved_path(
    d: Destination,
    hint: Option<Seq<char>>,
    default_folder: Seq<char>,
    extension: Seq<char>,
    generated: Seq<char>,
) -> Seq<char> {
    let basename = match chosen_basename(d, hint) {
        Some(b) => b,
        None => generated,
    };
    file_path(chosen_folder(d, default_folder), basename, extension)
}

fn folder_of<'a>(destination: &'a Destination, default_folder: &'a str) -> (r: &'a str)
    ensures
        r@ == chosen_folder(*destination, default_folder@) || (r@.len() == 0 && chosen_folder(
            *destination,
            default_folder@,
        ) == seq!['.']),
{
    let f: &str = match destination {
        Destination::GivenFolderGivenFileBasename(f, _) => f.as_str(),
        Destination::GivenFolderGuessFileBasename(f) => f.as_str(),
        _ => default_folder,
    };
    if !f.is_empty() {
        f
    } else {
        default_folder
    }
}

fn basename_of<'a>(destination: &'a Destination, name_hint: Option<&'a str>) -> (r: Option<&'a str>)
    ensures
        hint_view(r) == chosen_basename(*destination, hint_view(name_hint)),
{
    let b: Option<&str> = match destination {
        Destination::GivenFolderGivenFileBasename(_, b) => Some(b.as_str()),
        Destination::DefaultFolderGivenFileBasename(b) => Some(b.as_str()),
        _ => name_hint,
    };
    match b {
        Some(b) => if !b.is_empty() {
            Some(b)
        } else {
            None
        },
        None => None,
    }
}

fn join_path(folder: &str, basename: &str, extension: &str) -> (r: String)
    ensures
        r@ == file_path(if folder@.len() > 0 { folder@ } else { seq!['.'] }, basename@, extension@),
{
    let mut path = if folder.is_empty() {
        let mut dot = String::new();
        push_char(&mut dot, '.');
        dot
    } else {
        String::from_str(folder)
    };
    push_char(&mut path, '/');
    path.append(basename);
    push_char(&mut path, '.');
    path.append(extension);
    assert(path@ =~= file_path(if folder@.len() > 0 { folder@ } else { seq!['.'] }, basename@, extension@));
    path
}

/// The path of a destination, with `generated` as the basename where neither the
/// destination nor the hint gives one.
pub fn resolve_path(
    destination: &Destination,
    name_hint: Option<&str>,
    default_folder: &str,
    extension: &str,
    generated: &str,
) -> (r: String)
    ensures
        r@ == resolved_path(*destination, hint_view(name_hint), default_folder@, extension@, generated@),
{
    let folder = folder_of(destination, default_folder);
    match basename_of(destination, name_hint) {
        Some(b) => join_path(folder, b, extension),
        None => join_path(folder, generated, extension),
    }
}

/// The path of a destination; where neither the destination nor the hint gives a
/// basename, one is generated from the current time and a random number.
pub fn resolve_destination(
    destination: &Destination,
    name_hint: Option<&str>,
    default_folder: &str,
    extension: &str,
) -> (r: String)
    ensures
        chosen_basename(*destination, hint_view(name_hint)) is Some ==> r@ == resolved_path(
            *destination,
            hint_view(name_hint),
            default_folder@,
            extension@,
            Seq::empty(),
        ),
        exists|t: Timestamp, n: u32|
            t.wf() && r@ == resolved_path(
                *destination,
                hint_view(name_hint),
                default_folder@,
                extension@,
                generated_basename(t, n),
            ),
{
    match basename_of(destination, name_hint) {
        Some(_) => {
            let r = resolve_path(destination, name_hint, default_folder, extension, "");
            proof {
                let t = Timestamp { year: 0, month: 1, day: 1, hour: 0, minute: 0, second: 0 };
                assert(t.wf() && r@ == resolved_path(
                    *destination,
                    hint_view(name_hint),
                    default_folder@,
                    extension@,
                    generated_basename(t, 0),
                ));
            }
            r
        },
        None => {
            let generated = generate_random_file_basename();
            resolve_path(destination, name_hint, default_folder, extension, generated.as_str())
        },
    }
}

} // verus!
