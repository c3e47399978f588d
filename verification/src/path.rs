//! Where the artifact of a surface is kept: a path that depends on the cache
//! root, the surface's kind and its id, and on nothing else.

use vstd::prelude::*;
use crate::surface::SurfaceKind;

verus! {

/// The character that writes the digit `d`.
pub open spec fn digit_char(d: nat) -> char
    recommends
        d < 10,
{
    if d == 0 {
        '0'
    } else if d == 1 {
        '1'
    } else if d == 2 {
        '2'
    } else if d == 3 {
        '3'
    } else if d == 4 {
        '4'
    } else if d == 5 {
        '5'
    } else if d == 6 {
        '6'
    } else if d == 7 {
        '7'
    } else if d == 8 {
        '8'
    } else {
        '9'
    }
}

/// The decimal numeral of `n`: most significant digit first, no leading zero,
/// and `"0"` for zero.
pub open spec fn decimal(n: nat) -> Seq<char>
    decreases n,
{
    if n < 10 {
        seq![digit_char(n)]
    } else {
        decimal(n / 10).push(digit_char(n % 10))
    }
}

/// The word that a file name starts with, by the kind of its surface.
pub open spec fn kind_prefix(kind: SurfaceKind) -> Seq<char> {
    match kind {
        SurfaceKind::Window => "window"@,
        SurfaceKind::Monitor => "monitor"@,
    }
}

/// The name of the artifact's file: the kind's word, a hyphen, the id in
/// decimal, and the extension.
pub open spec fn file_name(kind: SurfaceKind, id: u32) -> Seq<char> {
    kind_prefix(kind) + seq!['-'] + decimal(id as nat) + ".png"@
}

/// `name` directly under the directory `dir`.
pub open spec fn child_path(dir: Seq<char>, name: Seq<char>) -> Seq<char> {
    dir + seq!['/'] + name
}

/// The name of the cache root inside the application's data directory.
pub open spec fn save_dir_name() -> Seq<char> {
    "tauri-plugin-screenshots"@
}

/// The cache root that belongs to an application data directory.
pub open spec fn save_dir(app_data_dir: Seq<char>) -> Seq<char> {
    child_path(app_data_dir, save_dir_name())
}

/// The path of the artifact with key `(kind, id)` under the cache root.
pub open spec fn save_path(save_dir: Seq<char>, kind: SurfaceKind, id: u32) -> Seq<char> {
    child_path(save_dir, file_name(kind, id))
}

fn digit_str(d: u32) -> (r: &'static str)
    requires
        d < 10,
    ensures
        r@ == seq![digit_char(d as nat)],
{
    proof {
        reveal_strlit("0");
        reveal_strlit("1");
        reveal_strlit("2");
        reveal_strlit("3");
        reveal_strlit("4");
        reveal_strlit("5");
        reveal_strlit("6");
        reveal_strlit("7");
        reveal_strlit("8");
        reveal_strlit("9");
    }
    let r: &'static str = if d == 0 {
        "0"
    } else if d == 1 {
        "1"
    } else if d == 2 {
        "2"
    } else if d == 3 {
        "3"
    } else if d == 4 {
        "4"
    } else if d == 5 {
        "5"
    } else if d == 6 {
        "6"
    } else if d == 7 {
        "7"
    } else if d == 8 {
        "8"
    } else {
        "9"
    };
    assert(r@ =~= seq![digit_char(d as nat)]);
    r
}

/// Writes `n` in decimal.
pub fn decimal_string(n: u32) -> (r: String)
    ensures
        r@ == decimal(n as nat),
    decreases n,
{
    if n < 10 {
        String::from_str(digit_str(n))
    } else {
        let mut s: String = decimal_string(n / 10);
        s.append(digit_str(n % 10));
        assert(s@ =~= decimal(n as nat));
        s
    }
}

/// The name of the file that holds the artifact with key `(kind, id)`.
pub fn artifact_file_name(kind: SurfaceKind, id: u32) -> (r: String)
    ensures
        r@ == file_name(kind, id),
{
    let prefix: &'static str = match kind {
        SurfaceKind::Window => "window",
        SurfaceKind::Monitor => "monitor",
    };
    let digits: String = decimal_string(id);
    let mut name: String = String::from_str(prefix);
    proof {
        reveal_strlit("-");
    }
    name.append("-");
    name.append(digits.as_str());
    name.append(".png");
    assert(name@ =~= file_name(kind, id));
    name
}

/// The path of `name` directly under `dir`.
pub fn join_path(dir: &str, name: &str) -> (r: String)
    ensures
        r@ == child_path(dir@, name@),
{
    let mut path: String = String::from_str(dir);
    proof {
        reveal_strlit("/");
    }
    path.append("/");
    path.append(name);
    assert(path@ =~= child_path(dir@, name@));
    path
}

/// The cache root of the application whose data directory is `app_data_dir`.
/// Nothing is created: the directory comes into being with the first capture.
pub fn get_save_dir(app_data_dir: &str) -> (r: String)
    ensures
        r@ == save_dir(app_data_dir@),
{
    join_path(app_data_dir, "tauri-plugin-screenshots")
}

/// The path of the artifact with key `(kind, id)` under the cache root
/// `save_dir`. The result depends on these three values alone.
pub fn get_save_path(save_dir: &str, kind: SurfaceKind, id: u32) -> (r: String)
    ensures
        r@ == save_path(save_dir@, kind, id),
{
    let name: String = artifact_file_name(kind, id);
    join_path(save_dir, name.as_str())
}

/// A numeral has at least one digit.
pub proof fn lemma_decimal_len(n: nat)
    ensures
        decimal(n).len() >= 1,
        n < 10 <==> decimal(n).len() == 1,
    decreases n,
{
    if n >= 10 {
        lemma_decimal_len(n / 10);
    }
}

/// Every character of a numeral is a digit.
pub proof fn lemma_decimal_digits(n: nat, i: int)
    requires
        0 <= i < decimal(n).len(),
    ensures
        '0' <= decimal(n)[i] <= '9',
    decreases n,
{
    if n >= 10 {
        if i < decimal(n / 10).len() {
            lemma_decimal_digits(n / 10, i);
        }
    }
}

/// Two numbers with the same numeral are the same number.
pub proof fn lemma_decimal_injective(a: nat, b: nat)
    requires
        decimal(a) == decimal(b),
    ensures
        a == b,
    decreases a,
{
    lemma_decimal_len(a);
    lemma_decimal_len(b);
    if a < 10 {
        assert(b < 10);
        assert(decimal(a)[0] == digit_char(a));
        assert(decimal(b)[0] == digit_char(b));
    } else {
        assert(b >= 10);
        let da = decimal(a / 10);
        let db = decimal(b / 10);
        assert(da =~= decimal(a).drop_last());
        assert(db =~= decimal(b).drop_last());
        assert(decimal(a).last() == digit_char(a % 10));
        assert(decimal(b).last() == digit_char(b % 10));
        assert(a % 10 == b % 10);
        lemma_decimal_injective(a / 10, b / 10);
        assert(a == 10 * (a / 10) + a % 10);
        assert(b == 10 * (b / 10) + b % 10);
    }
}

/// Two keys with the same file name are the same key.
pub proof fn lemma_file_name_injective(k1: SurfaceKind, id1: u32, k2: SurfaceKind, id2: u32)
    requires
        file_name(k1, id1) == file_name(k2, id2),
    ensures
        k1 == k2,
        id1 == id2,
{
    reveal_strlit("window");
    reveal_strlit("monitor");
    reveal_strlit(".png");
    let n1 = file_name(k1, id1);
    let n2 = file_name(k2, id2);
    let d1 = decimal(id1 as nat);
    let d2 = decimal(id2 as nat);
    lemma_decimal_len(id1 as nat);
    lemma_decimal_len(id2 as nat);
    assert(n1[0] == kind_prefix(k1)[0]);
    assert(n2[0] == kind_prefix(k2)[0]);
    assert(k1 == k2);
    let p: int = kind_prefix(k1).len() as int + 1;
    assert(n1.len() == p + d1.len() + 4);
    assert(n2.len() == p + d2.len() + 4);
    assert(d1.len() == d2.len());
    assert(d1 =~= n1.subrange(p, p + d1.len()));
    assert(d2 =~= n2.subrange(p, p + d2.len()));
    lemma_decimal_injective(id1 as nat, id2 as nat);
}

/// Under one cache root, two keys with the same path are the same key: no two
/// surfaces share an artifact.
pub proof fn lemma_save_path_injective(
    dir: Seq<char>,
    k1: SurfaceKind,
    id1: u32,
    k2: SurfaceKind,
    id2: u32,
)
    requires
        save_path(dir, k1, id1) == save_path(dir, k2, id2),
    ensures
        k1 == k2,
        id1 == id2,
{
    let p1 = save_path(dir, k1, id1);
    let p2 = save_path(dir, k2, id2);
    let n1 = file_name(k1, id1);
    let n2 = file_name(k2, id2);
    let start: int = dir.len() as int + 1;
    assert(p1.len() == start + n1.len());
    assert(p2.len() == start + n2.len());
    assert(n1 =~= p1.subrange(start, p1.len() as int));
    assert(n2 =~= p2.subrange(start, p2.len() as int));
    lemma_file_name_injective(k1, id1, k2, id2);
}

/// A file name holds no separator, so every artifact lies directly in the
/// cache root.
pub proof fn lemma_file_name_flat(kind: SurfaceKind, id: u32, i: int)
    requires
        0 <= i < file_name(kind, id).len(),
    ensures
        file_name(kind, id)[i] != '/',
{
    reveal_strlit("window");
    reveal_strlit("monitor");
    reveal_strlit(".png");
    let d = decimal(id as nat);
    let p: int = kind_prefix(kind).len() as int + 1;
    if p <= i < p + d.len() {
        lemma_decimal_digits(id as nat, i - p);
        assert(file_name(kind, id)[i] == d[i - p]);
    }
}

} // verus!
