use vstd::prelude::*;

use crate::settings::{default_settings, Settings};
use crate::version::{
    all_digits, digit_value, digits_value, first_dot, spec_parse_u64, spec_parse_version, strip_v,
    version_is_newer,
};

verus! {

/// The decimal digit for `d`, which is below ten.
pub open spec fn digit_char(d: nat) -> char {
    ('0' as int + d) as char
}

/// `n` written in decimal, without leading zeros.
pub open spec fn decimal(n: nat) -> Seq<char>
    decreases n,
{
    if n < 10 {
        seq![digit_char(n)]
    } else {
        decimal(n / 10).push(digit_char(n % 10))
    }
}

/// The name of the temporary file that a save writes before it replaces the
/// settings file `file_name`: hidden, beside it, and marked with the
/// process and a per-process counter.
pub open spec fn spec_temporary_file_name(file_name: Seq<char>, process: u32, counter: u64) -> Seq<
    char,
> {
    seq!['.'] + file_name + seq!['.'] + decimal(process as nat) + seq!['.'] + decimal(
        counter as nat,
    ) + ".tmp"@
}

/// The settings that start-up uses: those read from the settings file, or
/// the first-start defaults where the file is missing or does not hold
/// settings.
pub fn settings_or_default(read: Option<Settings>) -> (res: Settings)
    ensures
        res == match read {
            Some(s) => s,
            None => default_settings(),
        },
{
    match read {
        Some(s) => s,
        None => Settings::default(),
    }
}

fn digit_text(d: u64) -> (res: &'static str)
    requires
        d < 10,
    ensures
        res@ == seq![digit_char(d as nat)],
{
    proof {
        reveal_strlit("0");
        reveal_strlit("1");
        reveal_strlit("2");
        reveal_strlit("3");
        reveal_strlit("4");
        reveal_strlit("5");
        reveal_strlit("6");
        reveal_strlit("7");
        reveal_strlit("8");
        reveal_strlit("9");
    }
    let res = if d == 0 {
        "0"
    } else if d == 1 {
        "1"
    } else if d == 2 {
        "2"
    } else if d == 3 {
        "3"
    } else if d == 4 {
        "4"
    } else if d == 5 {
        "5"
    } else if d == 6 {
        "6"
    } else if d == 7 {
        "7"
    } else if d == 8 {
        "8"
    } else {
        "9"
    };
    assert(res@ =~= seq![digit_char(d as nat)]);
    res
}

fn append_decimal(text: &mut String, n: u64)
    ensures
        final(text)@ == old(text)@ + decimal(n as nat),
    decreases n,
{
    if n < 10 {
        text.append(digit_text(n));
    } else {
        append_decimal(text, n / 10);
        text.append(digit_text(n % 10));
        assert(old(text)@ + decimal(n as nat) =~= old(text)@ + decimal((n / 10) as nat) + seq![
            digit_char((n % 10) as nat),
        ]);
    }
}

/// The name of the temporary file for saving settings to `file_name`.
pub fn temporary_file_name(file_name: &str, process: u32, counter: u64) -> (res: String)
    ensures
        res@ == spec_temporary_file_name(file_name@, process, counter),
{
    let mut name = String::from_str(".");
    name.append(file_name);
    name.append(".");
    append_decimal(&mut name, process as u64);
    name.append(".");
    append_decimal(&mut name, counter);
    name.append(".tmp");
    proof {
        reveal_strlit(".");
    }
    assert(name@ =~= spec_temporary_file_name(file_name@, process, counter));
    name
}

proof fn lemma_decimal_digits(n: nat)
    ensures
        decimal(n).len() >= 1,
        all_digits(decimal(n)),
        digits_value(decimal(n)) == n,
        decimal(n)[0] != '0' || n == 0,
    decreases n,
{
    if n >= 10 {
        lemma_decimal_digits(n / 10);
        let s = decimal(n);
        assert(s.drop_last() == decimal(n / 10));
        assert(forall|i: int| 0 <= i < s.len() - 1 ==> s[i] == decimal(n / 10)[i]);
        assert(s.last() == digit_char(n % 10));
        assert(digit_value(digit_char(n % 10)) == n % 10);
        assert(digits_value(s) == digits_value(decimal(n / 10)) * 10 + digit_value(s.last()));
        assert((n / 10) * 10 + n % 10 == n);
    } else {
        let s = decimal(n);
        assert(digit_value(digit_char(n)) == n);
        assert(s.drop_last() =~= Seq::<char>::empty());
        assert(digits_value(s.drop_last()) == 0);
        assert(s.last() == digit_char(n));
        assert(digits_value(s) == digits_value(s.drop_last()) * 10 + digit_value(s.last()));
    }
}

proof fn lemma_no_dot_in_decimal(n: nat, i: int)
    requires
        0 <= i < decimal(n).len(),
    ensures
        decimal(n)[i] != '.',
{
    lemma_decimal_digits(n);
}

/// Reading a number written in decimal gives the number back.
pub proof fn decimal_reads_back(n: u64)
    ensures
        spec_parse_u64(decimal(n as nat)) == Some(n),
{
    lemma_decimal_digits(n as nat);
    let s = decimal(n as nat);
    assert(s[0] != '+');
}

proof fn lemma_decimal_injective(a: nat, b: nat)
    requires
        decimal(a) == decimal(b),
    ensures
        a == b,
{
    lemma_decimal_digits(a);
    lemma_decimal_digits(b);
}

proof fn lemma_first_dot_after_digits(d: Seq<char>, rest: Seq<char>)
    requires
        forall|i: int| 0 <= i < d.len() ==> d[i] != '.',
    ensures
        first_dot(d + seq!['.'] + rest) == Some(d.len() as int),
    decreases d.len(),
{
    if d.len() > 0 {
        lemma_first_dot_after_digits(d.drop_first(), rest);
        assert((d + seq!['.'] + rest).drop_first() =~= d.drop_first() + seq!['.'] + rest);
    }
}

/// A temporary file never takes the name `<file>.tmp`, which another save
/// may hold.
pub proof fn temporary_name_is_not_fixed(file_name: Seq<char>, process: u32, counter: u64)
    ensures
        spec_temporary_file_name(file_name, process, counter) != file_name + ".tmp"@,
{
    lemma_decimal_digits(process as nat);
    lemma_decimal_digits(counter as nat);
    reveal_strlit(".tmp");
    assert(spec_temporary_file_name(file_name, process, counter).len() > (file_name
        + ".tmp"@).len());
}

/// Two saves of the same file by different processes, or by one process
/// with different counters, never pick the same temporary name.
pub proof fn temporary_names_are_distinct(
    file_name: Seq<char>,
    process_a: u32,
    counter_a: u64,
    process_b: u32,
    counter_b: u64,
)
    requires
        process_a != process_b || counter_a != counter_b,
    ensures
        spec_temporary_file_name(file_name, process_a, counter_a) != spec_temporary_file_name(
            file_name,
            process_b,
            counter_b,
        ),
{
    let pre = seq!['.'] + file_name + seq!['.'];
    let da = decimal(process_a as nat);
    let db = decimal(process_b as nat);
    let ra = decimal(counter_a as nat) + ".tmp"@;
    let rb = decimal(counter_b as nat) + ".tmp"@;
    let na = spec_temporary_file_name(file_name, process_a, counter_a);
    let nb = spec_temporary_file_name(file_name, process_b, counter_b);
    assert(na =~= pre + (da + seq!['.'] + ra));
    assert(nb =~= pre + (db + seq!['.'] + rb));
    if na == nb {
        let ta = da + seq!['.'] + ra;
        let tb = db + seq!['.'] + rb;
        assert(ta =~= na.subrange(pre.len() as int, na.len() as int));
        assert(tb =~= nb.subrange(pre.len() as int, nb.len() as int));
        assert forall|i: int| 0 <= i < da.len() implies da[i] != '.' by {
            lemma_no_dot_in_decimal(process_a as nat, i);
        }
        assert forall|i: int| 0 <= i < db.len() implies db[i] != '.' by {
            lemma_no_dot_in_decimal(process_b as nat, i);
        }
        lemma_first_dot_after_digits(da, ra);
        lemma_first_dot_after_digits(db, rb);
        assert(da.len() == db.len());
        assert(da =~= ta.subrange(0, da.len() as int));
        assert(db =~= tb.subrange(0, db.len() as int));
        lemma_decimal_injective(process_a as nat, process_b as nat);
        assert(ra =~= ta.subrange(da.len() as int + 1, ta.len() as int));
        assert(rb =~= tb.subrange(db.len() as int + 1, tb.len() as int));
        reveal_strlit(".tmp");
        let ca = decimal(counter_a as nat);
        let cb = decimal(counter_b as nat);
        assert(ca =~= ra.subrange(0, ra.len() - 4));
        assert(cb =~= rb.subrange(0, rb.len() - 4));
        lemma_decimal_injective(counter_a as nat, counter_b as nat);
    }
}

/// `major.minor.patch` written in decimal.
pub open spec fn version_text(major: u64, minor: u64, patch: u64) -> Seq<char> {
    decimal(major as nat) + seq!['.'] + decimal(minor as nat) + seq!['.'] + decimal(patch as nat)
}

/// A version written as `major.minor.patch`, with or without a leading
/// `v`, reads back as those three numbers.
pub proof fn written_version_reads_back(major: u64, minor: u64, patch: u64)
    ensures
        spec_parse_version(version_text(major, minor, patch)) == Some((major, minor, patch)),
        spec_parse_version(seq!['v'] + version_text(major, minor, patch)) == Some(
            (major, minor, patch),
        ),
{
    let da = decimal(major as nat);
    let db = decimal(minor as nat);
    let dc = decimal(patch as nat);
    let t = version_text(major, minor, patch);
    lemma_decimal_digits(major as nat);
    lemma_decimal_digits(minor as nat);
    lemma_decimal_digits(patch as nat);
    assert(t[0] == da[0]);
    assert(t[0] != 'v');
    assert(strip_v(t) == t);
    assert((seq!['v'] + t).drop_first() =~= t);
    let rest = db + seq!['.'] + dc;
    assert(t =~= da + seq!['.'] + rest);
    assert forall|i: int| 0 <= i < da.len() implies da[i] != '.' by {
        lemma_no_dot_in_decimal(major as nat, i);
    }
    assert forall|i: int| 0 <= i < db.len() implies db[i] != '.' by {
        lemma_no_dot_in_decimal(minor as nat, i);
    }
    lemma_first_dot_after_digits(da, rest);
    lemma_first_dot_after_digits(db, dc);
    assert(t.subrange(0, da.len() as int) =~= da);
    assert(t.subrange(da.len() as int + 1, t.len() as int) =~= rest);
    assert(rest.subrange(0, db.len() as int) =~= db);
    assert(rest.subrange(db.len() as int + 1, rest.len() as int) =~= dc);
    decimal_reads_back(major);
    decimal_reads_back(minor);
    decimal_reads_back(patch);
}

/// Between two written versions, the first is newer exactly when its major
/// number is greater, or the majors are equal and its minor number is
/// greater, or both are equal and its patch number is greater.
pub proof fn written_versions_compare_numerically(
    a_major: u64,
    a_minor: u64,
    a_patch: u64,
    b_major: u64,
    b_minor: u64,
    b_patch: u64,
)
    ensures
        version_is_newer(
            version_text(a_major, a_minor, a_patch),
            version_text(b_major, b_minor, b_patch),
        ) <==> (a_major > b_major || (a_major == b_major && a_minor > b_minor) || (a_major
            == b_major && a_minor == b_minor && a_patch > b_patch)),
{
    written_version_reads_back(a_major, a_minor, a_patch);
    written_version_reads_back(b_major, b_minor, b_patch);
}

} // verus!
