//! The cache path resolver: pure string composition of the source image
//! path `<base>/source/<subject>/<kind>/<index>.jpg` and the generated
//! output path `<base>/_gen/<subject>/<kind>/<width>x<height>.jpg`, with
//! a verified decimal formatter for the numeric segments. The base
//! directory is injected by the caller; no filesystem access happens here.

use vstd::prelude::*;
use vstd::string::StringExecFns;

use crate::catalog::ImageKind;
use crate::catalog::Subject;

verus! {

/// The character of a single decimal digit.
pub open spec fn digit_char(d: int) -> char
    recommends
        0 <= d < 10,
{
    if d == 0 {
        '0'
    } else if d == 1 {
        '1'
    } else if d == 2 {
        '2'
    } else if d == 3 {
        '3'
    } else if d == 4 {
        '4'
    } else if d == 5 {
        '5'
    } else if d == 6 {
        '6'
    } else if d == 7 {
        '7'
    } else if d == 8 {
        '8'
    } else {
        '9'
    }
}

/// The decimal numeral of n, most significant digit first, without sign
/// or leading zeros (the numeral of 0 is "0").
pub open spec fn spec_decimal(n: int) -> Seq<char>
    recommends
        n >= 0,
    decreases n,
{
    if n < 10 {
        seq![digit_char(n)]
    } else {
        spec_decimal(n / 10) + seq![digit_char(n % 10)]
    }
}

/// Whether a character is a decimal digit.
pub open spec fn is_digit_char(c: char) -> bool {
    c == '0' || c == '1' || c == '2' || c == '3' || c == '4' || c == '5' || c == '6' || c == '7'
        || c == '8' || c == '9'
}

/// A decimal numeral is never empty, and a numeral of a value of ten or
/// more has at least two digits.
pub proof fn lemma_decimal_len(n: int)
    requires
        n >= 0,
    ensures
        spec_decimal(n).len() >= 1,
        n < 10 ==> spec_decimal(n).len() == 1,
        n >= 10 ==> spec_decimal(n).len() >= 2,
    decreases n,
{
    if n >= 10 {
        lemma_decimal_len(n / 10);
    }
}

/// Every character of a decimal numeral is a digit.
pub proof fn lemma_decimal_digits(n: int)
    requires
        n >= 0,
    ensures
        forall|i: int|
            0 <= i < spec_decimal(n).len() ==> is_digit_char(#[trigger] spec_decimal(n)[i]),
    decreases n,
{
    if n < 10 {
        assert(spec_decimal(n) == seq![digit_char(n)]);
        assert(spec_decimal(n)[0] == digit_char(n));
    } else {
        lemma_decimal_digits(n / 10);
        let prefix = spec_decimal(n / 10);
        assert(spec_decimal(n) == prefix + seq![digit_char(n % 10)]);
        assert forall|i: int|
            0 <= i < spec_decimal(n).len() implies is_digit_char(
            #[trigger] spec_decimal(n)[i],
        ) by {
            if i < prefix.len() {
                assert(spec_decimal(n)[i] == prefix[i]);
            } else {
                assert(spec_decimal(n)[i] == digit_char(n % 10));
            }
        }
    }
}

/// Distinct values have distinct decimal numerals.
pub proof fn lemma_decimal_injective(m: int, n: int)
    requires
        m >= 0,
        n >= 0,
        spec_decimal(m) == spec_decimal(n),
    ensures
        m == n,
    decreases m,
{
    lemma_decimal_len(m);
    lemma_decimal_len(n);
    if m < 10 && n < 10 {
        assert(spec_decimal(m)[0] == digit_char(m));
        assert(spec_decimal(n)[0] == digit_char(n));
        assert(digit_char(m) == digit_char(n));
    }
    if m >= 10 && n >= 10 {
        let pm = spec_decimal(m / 10);
        let pn = spec_decimal(n / 10);
        assert(spec_decimal(m) == pm + seq![digit_char(m % 10)]);
        assert(spec_decimal(n) == pn + seq![digit_char(n % 10)]);
        assert(pm.len() == pn.len());
        assert forall|i: int| 0 <= i < pm.len() implies pm[i] == pn[i] by {
            assert((pm + seq![digit_char(m % 10)])[i] == pm[i]);
            assert((pn + seq![digit_char(n % 10)])[i] == pn[i]);
        }
        assert(pm =~= pn);
        lemma_decimal_injective(m / 10, n / 10);
        let last = pm.len() as int;
        assert(spec_decimal(m)[last] == digit_char(m % 10));
        assert(spec_decimal(n)[last] == digit_char(n % 10));
        assert(digit_char(m % 10) == digit_char(n % 10));
        assert(m % 10 == n % 10);
        assert(m == (m / 10) * 10 + (m % 10));
        assert(n == (n / 10) * 10 + (n % 10));
    }
}

/// A shared suffix cancels: if a + c and b + c are the same sequence, a
/// and b are the same sequence.
proof fn lemma_seq_cancel_right(a: Seq<char>, b: Seq<char>, c: Seq<char>)
    requires
        a + c == b + c,
    ensures
        a == b,
{
    assert((a + c).len() == a.len() + c.len());
    assert((b + c).len() == b.len() + c.len());
    assert(a.len() == b.len());
    assert forall|i: int| 0 <= i < a.len() implies a[i] == b[i] by {
        assert((a + c)[i] == a[i]);
        assert((b + c)[i] == b[i]);
    }
    assert(a =~= b);
}

/// A delimited field cancels from the right: if every character of the
/// fields t1 and t2 satisfies pred, the characters just before them do
/// not, and a1 + t1 and a2 + t2 are the same sequence, then the fields
/// agree and the prefixes agree.
proof fn lemma_delimited_suffix_cancel(
    a1: Seq<char>,
    t1: Seq<char>,
    a2: Seq<char>,
    t2: Seq<char>,
    pred: spec_fn(char) -> bool,
)
    requires
        a1.len() > 0,
        a2.len() > 0,
        !pred(a1.last()),
        !pred(a2.last()),
        forall|i: int| 0 <= i < t1.len() ==> pred(#[trigger] t1[i]),
        forall|i: int| 0 <= i < t2.len() ==> pred(#[trigger] t2[i]),
        a1 + t1 == a2 + t2,
    ensures
        t1 == t2,
        a1 == a2,
{
    assert((a1 + t1).len() == a1.len() + t1.len());
    assert((a2 + t2).len() == a2.len() + t2.len());
    if t1.len() < t2.len() {
        let j = a1.len() - 1;
        assert((a1 + t1)[j] == a1.last());
        assert((a2 + t2)[j] == t2[j - a2.len()]);
        assert(false);
    }
    if t2.len() < t1.len() {
        let j = a2.len() - 1;
        assert((a2 + t2)[j] == a2.last());
        assert((a1 + t1)[j] == t1[j - a1.len()]);
        assert(false);
    }
    assert(t1.len() == t2.len());
    assert(a1.len() == a2.len());
    assert forall|i: int| 0 <= i < t1.len() implies t1[i] == t2[i] by {
        assert((a1 + t1)[a1.len() + i] == t1[i]);
        assert((a2 + t2)[a2.len() + i] == t2[i]);
    }
    assert(t1 =~= t2);
    lemma_seq_cancel_right(a1, a2, t1);
}

/// A decimal field cancels from the right: if the characters just before
/// the numerals are not digits and a1 + dec(m) and a2 + dec(n) are the
/// same sequence, then m == n and the prefixes agree.
proof fn lemma_numeral_suffix_cancel(m: int, n: int, a1: Seq<char>, a2: Seq<char>)
    requires
        m >= 0,
        n >= 0,
        a1.len() > 0,
        a2.len() > 0,
        !is_digit_char(a1.last()),
        !is_digit_char(a2.last()),
        a1 + spec_decimal(m) == a2 + spec_decimal(n),
    ensures
        m == n,
        a1 == a2,
{
    lemma_decimal_digits(m);
    lemma_decimal_digits(n);
    lemma_delimited_suffix_cancel(
        a1,
        spec_decimal(m),
        a2,
        spec_decimal(n),
        |c: char| is_digit_char(c),
    );
    lemma_decimal_injective(m, n);
}

/// Every subject token is nonempty, slash-free, and begins with a letter
/// of its own.
proof fn lemma_subject_token_facts(s: Subject)
    ensures
        s.spec_token().len() > 0,
        forall|i: int| 0 <= i < s.spec_token().len() ==> #[trigger] s.spec_token()[i] != '/',
        s == Subject::Cage ==> s.spec_token()[0] == 'c',
        s == Subject::Murray ==> s.spec_token()[0] == 'm',
        s == Subject::Segall ==> s.spec_token()[0] == 's',
{
    reveal_strlit("cage");
    reveal_strlit("murray");
    reveal_strlit("segall");
}

/// Every kind token is nonempty, slash-free, and has a length of its own.
proof fn lemma_kind_token_facts(k: ImageKind)
    ensures
        k.spec_token().len() > 0,
        forall|i: int| 0 <= i < k.spec_token().len() ==> #[trigger] k.spec_token()[i] != '/',
        k == ImageKind::Default ==> k.spec_token().len() == 7,
        k == ImageKind::Crazy ==> k.spec_token().len() == 5,
        k == ImageKind::Gif ==> k.spec_token().len() == 3,
{
    reveal_strlit("default");
    reveal_strlit("crazy");
    reveal_strlit("gif");
}

/// From equal directory parts base + sep + token(s) + "/" + token(k),
/// conclude that the subjects and the kinds agree; sep must end with a
/// slash and the tokens hold none.
proof fn lemma_dir_collision_free(
    base: Seq<char>,
    sep: Seq<char>,
    s1: Subject,
    k1: ImageKind,
    s2: Subject,
    k2: ImageKind,
)
    requires
        sep.len() > 0,
        sep.last() == '/',
        base + sep + s1.spec_token() + "/"@ + k1.spec_token() == base + sep + s2.spec_token()
            + "/"@ + k2.spec_token(),
    ensures
        s1 == s2,
        k1 == k2,
{
    reveal_strlit("/");
    lemma_subject_token_facts(s1);
    lemma_subject_token_facts(s2);
    lemma_kind_token_facts(k1);
    lemma_kind_token_facts(k2);
    let a1 = base + sep + s1.spec_token() + "/"@;
    let a2 = base + sep + s2.spec_token() + "/"@;
    assert(a1.last() == '/');
    assert(a2.last() == '/');
    lemma_delimited_suffix_cancel(
        a1,
        k1.spec_token(),
        a2,
        k2.spec_token(),
        |c: char| c != '/',
    );
    assert(k1 == k2);
    lemma_seq_cancel_right(base + sep + s1.spec_token(), base + sep + s2.spec_token(), "/"@);
    let b1 = base + sep;
    assert(b1.last() == '/');
    lemma_delimited_suffix_cancel(
        b1,
        s1.spec_token(),
        b1,
        s2.spec_token(),
        |c: char| c != '/',
    );
    assert(s1.spec_token() == s2.spec_token());
    assert(s1 == s2);
}

/// Law: output paths are collision-free. Two requests against the same
/// base directory name the same output file only when they agree on
/// subject, kind, width and height; distinct cache keys can never
/// overwrite one another.
pub proof fn lemma_output_path_collision_free(
    base: Seq<char>,
    s1: Subject,
    k1: ImageKind,
    w1: u32,
    h1: u32,
    s2: Subject,
    k2: ImageKind,
    w2: u32,
    h2: u32,
)
    requires
        spec_output_path(base, s1, k1, w1, h1) == spec_output_path(base, s2, k2, w2, h2),
    ensures
        s1 == s2,
        k1 == k2,
        w1 == w2,
        h1 == h2,
{
    reveal_strlit("x");
    reveal_strlit("/");
    reveal_strlit("/_gen/");
    let d1 = spec_output_dir(base, s1, k1);
    let d2 = spec_output_dir(base, s2, k2);
    lemma_seq_cancel_right(
        d1 + "/"@ + spec_decimal(w1 as int) + "x"@ + spec_decimal(h1 as int),
        d2 + "/"@ + spec_decimal(w2 as int) + "x"@ + spec_decimal(h2 as int),
        ".jpg"@,
    );
    let ah1 = d1 + "/"@ + spec_decimal(w1 as int) + "x"@;
    let ah2 = d2 + "/"@ + spec_decimal(w2 as int) + "x"@;
    assert(ah1.last() == 'x');
    assert(ah2.last() == 'x');
    lemma_numeral_suffix_cancel(h1 as int, h2 as int, ah1, ah2);
    assert(h1 == h2);
    lemma_seq_cancel_right(
        d1 + "/"@ + spec_decimal(w1 as int),
        d2 + "/"@ + spec_decimal(w2 as int),
        "x"@,
    );
    let aw1 = d1 + "/"@;
    let aw2 = d2 + "/"@;
    assert(aw1.last() == '/');
    assert(aw2.last() == '/');
    lemma_numeral_suffix_cancel(w1 as int, w2 as int, aw1, aw2);
    assert(w1 == w2);
    lemma_seq_cancel_right(d1, d2, "/"@);
    assert((base + "/_gen/"@).last() == '/');
    lemma_dir_collision_free(base, "/_gen/"@, s1, k1, s2, k2);
}

/// Law: source paths are collision-free. Two lookups against the same
/// base directory name the same source file only when they agree on
/// subject, kind and index.
pub proof fn lemma_source_path_collision_free(
    base: Seq<char>,
    s1: Subject,
    k1: ImageKind,
    i1: u32,
    s2: Subject,
    k2: ImageKind,
    i2: u32,
)
    requires
        spec_source_path(base, s1, k1, i1) == spec_source_path(base, s2, k2, i2),
    ensures
        s1 == s2,
        k1 == k2,
        i1 == i2,
{
    reveal_strlit("/");
    reveal_strlit("/source/");
    lemma_seq_cancel_right(
        base + "/source/"@ + s1.spec_token() + "/"@ + k1.spec_token() + "/"@ + spec_decimal(
            i1 as int,
        ),
        base + "/source/"@ + s2.spec_token() + "/"@ + k2.spec_token() + "/"@ + spec_decimal(
            i2 as int,
        ),
        ".jpg"@,
    );
    let a1 = base + "/source/"@ + s1.spec_token() + "/"@ + k1.spec_token() + "/"@;
    let a2 = base + "/source/"@ + s2.spec_token() + "/"@ + k2.spec_token() + "/"@;
    assert(a1.last() == '/');
    assert(a2.last() == '/');
    lemma_numeral_suffix_cancel(i1 as int, i2 as int, a1, a2);
    assert(i1 == i2);
    lemma_seq_cancel_right(
        base + "/source/"@ + s1.spec_token() + "/"@ + k1.spec_token(),
        base + "/source/"@ + s2.spec_token() + "/"@ + k2.spec_token(),
        "/"@,
    );
    lemma_dir_collision_free(base, "/source/"@, s1, k1, s2, k2);
}

/// The one-character string of a single decimal digit.
fn digit_str(d: u32) -> (r: &'static str)
    requires
        d < 10,
    ensures
        r@ == seq![digit_char(d as int)],
{
    proof {
        reveal_strlit("0");
        reveal_strlit("1");
        reveal_strlit("2");
        reveal_strlit("3");
        reveal_strlit("4");
        reveal_strlit("5");
        reveal_strlit("6");
        reveal_strlit("7");
        reveal_strlit("8");
        reveal_strlit("9");
    }
    let r: &'static str = if d == 0 {
        "0"
    } else if d == 1 {
        "1"
    } else if d == 2 {
        "2"
    } else if d == 3 {
        "3"
    } else if d == 4 {
        "4"
    } else if d == 5 {
        "5"
    } else if d == 6 {
        "6"
    } else if d == 7 {
        "7"
    } else if d == 8 {
        "8"
    } else {
        "9"
    };
    proof {
        assert(r@ =~= seq![digit_char(d as int)]);
    }
    r
}

/// Appends the decimal numeral of n to out.
pub fn push_decimal(out: &mut String, n: u32)
    ensures
        final(out)@ == old(out)@ + spec_decimal(n as int),
    decreases n,
{
    if n >= 10 {
        push_decimal(out, n / 10);
        out.append(digit_str(n % 10));
        proof {
            assert(out@ =~= old(out)@ + spec_decimal(n as int));
        }
    } else {
        out.append(digit_str(n));
    }
}

/// The decimal numeral of n as an owned string.
pub fn decimal_string(n: u32) -> (r: String)
    ensures
        r@ == spec_decimal(n as int),
{
    let mut s = String::new();
    push_decimal(&mut s, n);
    proof {
        assert(s@ =~= spec_decimal(n as int));
    }
    s
}

/// The path of the catalog's source image `<index>.jpg` under
/// `<base>/source/<subject>/<kind>/`.
pub open spec fn spec_source_path(
    base: Seq<char>,
    subject: Subject,
    kind: ImageKind,
    index: u32,
) -> Seq<char> {
    base + "/source/"@ + subject.spec_token() + "/"@ + kind.spec_token() + "/"@ + spec_decimal(
        index as int,
    ) + ".jpg"@
}

/// The directory `<base>/_gen/<subject>/<kind>` that holds generated
/// outputs for the pair.
pub open spec fn spec_output_dir(base: Seq<char>, subject: Subject, kind: ImageKind) -> Seq<char> {
    base + "/_gen/"@ + subject.spec_token() + "/"@ + kind.spec_token()
}

/// The path `<base>/_gen/<subject>/<kind>/<width>x<height>.jpg` of the
/// generated output for the request.
pub open spec fn spec_output_path(
    base: Seq<char>,
    subject: Subject,
    kind: ImageKind,
    width: u32,
    height: u32,
) -> Seq<char> {
    spec_output_dir(base, subject, kind) + "/"@ + spec_decimal(width as int) + "x"@ + spec_decimal(
        height as int,
    ) + ".jpg"@
}

/// Builds the source image path for the selected index.
pub fn source_path(base: &str, subject: Subject, kind: ImageKind, index: u32) -> (r: String)
    ensures
        r@ == spec_source_path(base@, subject, kind, index),
{
    let mut s = String::from_str(base);
    s.append("/source/");
    s.append(subject.token());
    s.append("/");
    s.append(kind.token());
    s.append("/");
    push_decimal(&mut s, index);
    s.append(".jpg");
    proof {
        assert(s@ =~= spec_source_path(base@, subject, kind, index));
    }
    s
}

/// Builds the directory that will hold the generated output.
pub fn output_dir(base: &str, subject: Subject, kind: ImageKind) -> (r: String)
    ensures
        r@ == spec_output_dir(base@, subject, kind),
{
    let mut s = String::from_str(base);
    s.append("/_gen/");
    s.append(subject.token());
    s.append("/");
    s.append(kind.token());
    proof {
        assert(s@ =~= spec_output_dir(base@, subject, kind));
    }
    s
}

/// Builds the generated output path for the request.
pub fn output_path(base: &str, subject: Subject, kind: ImageKind, width: u32, height: u32) -> (r:
    String)
    ensures
        r@ == spec_output_path(base@, subject, kind, width, height),
{
    let mut s = output_dir(base, subject, kind);
    s.append("/");
    push_decimal(&mut s, width);
    s.append("x");
    push_decimal(&mut s, height);
    s.append(".jpg");
    proof {
        assert(s@ =~= spec_output_path(base@, subject, kind, width, height));
    }
    s
}

} // verus!
