//! The read-only catalog of preset MML templates: fixed contents, cyclic
//! index arithmetic, and display titles.

use vstd::prelude::*;
use vstd::string::*;

verus! {

/// Number of preset templates in the catalog.
pub open spec fn template_count_spec() -> int {
    8
}

/// The preset MML content at catalog position `i`, for `0 <= i < count`.
pub open spec fn template_spec(i: int) -> Seq<char> {
    if i == 0 {
        "cdefgab"@
    } else if i == 1 {
        "c4d4e4f4g4a4b4>c4"@
    } else if i == 2 {
        "c4e4g4e4 c4e4g4e4 f4a4>c4<a4 g4b4>d4<b4"@
    } else if i == 3 {
        "c4d4e4c4 c4d4e4c4 e4f4g2 e4f4g2"@
    } else if i == 4 {
        "ceg4 fac4 gbd4 ceg4"@
    } else if i == 5 {
        "t120 c8d8e8f8g8a8b8>c8 <b8a8g8f8e8d8c2"@
    } else if i == 6 {
        "A o4 cdefgab>c\nB o3 c2e2g2c2"@
    } else {
        ""@
    }
}

/// Out-of-range lookups are clamped to the first template.
pub open spec fn clamped_index(i: int) -> int {
    if 0 <= i < template_count_spec() {
        i
    } else {
        0
    }
}

/// The decimal digit character for `d`, `0 <= d <= 9`.
pub open spec fn digit_char(d: int) -> char {
    if d == 0 {
        '0'
    } else if d == 1 {
        '1'
    } else if d == 2 {
        '2'
    } else if d == 3 {
        '3'
    } else if d == 4 {
        '4'
    } else if d == 5 {
        '5'
    } else if d == 6 {
        '6'
    } else if d == 7 {
        '7'
    } else if d == 8 {
        '8'
    } else {
        '9'
    }
}

/// The decimal representation of `n`, most significant digit first, with no
/// leading zeros (except for `n == 0` itself).
pub open spec fn dec_spec(n: nat) -> Seq<char>
    decreases n,
{
    if n < 10 {
        seq![digit_char(n as int)]
    } else {
        dec_spec(n / 10) + seq![digit_char((n % 10) as int)]
    }
}

/// Display title of the template at position `i`: a fixed name for the
/// known positions, a generic numbered label otherwise.
pub open spec fn title_spec(i: int) -> Seq<char> {
    if i == 0 {
        "基本スケール"@
    } else if i == 1 {
        "Cメジャースケール（オクターブ付き）"@
    } else if i == 2 {
        "基本メロディパターン"@
    } else if i == 3 {
        "ドレミの歌"@
    } else if i == 4 {
        "コード進行"@
    } else if i == 5 {
        "テンポ指定付きメロディ"@
    } else if i == 6 {
        "マルチトラック"@
    } else if i == 7 {
        "空のテンプレート"@
    } else {
        "テンプレート "@ + dec_spec((i + 1) as nat)
    }
}

/// The preset MML template catalog.
pub struct MmlTemplate;

impl MmlTemplate {
    /// The template content at `index`; an out-of-range index yields the
    /// first template rather than an error.
    pub fn get_template(index: usize) -> (r: &'static str)
        ensures
            r@ == template_spec(clamped_index(index as int)),
    {
        match index {
            0 => "cdefgab",
            1 => "c4d4e4f4g4a4b4>c4",
            2 => "c4e4g4e4 c4e4g4e4 f4a4>c4<a4 g4b4>d4<b4",
            3 => "c4d4e4c4 c4d4e4c4 e4f4g2 e4f4g2",
            4 => "ceg4 fac4 gbd4 ceg4",
            5 => "t120 c8d8e8f8g8a8b8>c8 <b8a8g8f8e8d8c2",
            6 => "A o4 cdefgab>c\nB o3 c2e2g2c2",
            7 => "",
            _ => "cdefgab",
        }
    }

    /// How many templates the catalog holds.
    pub fn template_count() -> (n: usize)
        ensures
            n == template_count_spec(),
    {
        8
    }

    /// The display title of the template at `index`.
    pub fn get_template_title(index: usize) -> (r: String)
        requires
            index < usize::MAX,
        ensures
            r@ == title_spec(index as int),
    {
        match index {
            0 => "基本スケール".to_owned(),
            1 => "Cメジャースケール（オクターブ付き）".to_owned(),
            2 => "基本メロディパターン".to_owned(),
            3 => "ドレミの歌".to_owned(),
            4 => "コード進行".to_owned(),
            5 => "テンポ指定付きメロディ".to_owned(),
            6 => "マルチトラック".to_owned(),
            7 => "空のテンプレート".to_owned(),
            _ => {
                let mut s = "テンプレート ".to_owned();
                let digits = usize_to_dec(index + 1);
                s.append(digits.as_str());
                s
            },
        }
    }
}

/// The one-character string for a single decimal digit.
fn digit_str(d: usize) -> (r: &'static str)
    requires
        d < 10,
    ensures
        r@ == seq![digit_char(d as int)],
{
    let r: &'static str = if d == 0 {
        "0"
    } else if d == 1 {
        "1"
    } else if d == 2 {
        "2"
    } else if d == 3 {
        "3"
    } else if d == 4 {
        "4"
    } else if d == 5 {
        "5"
    } else if d == 6 {
        "6"
    } else if d == 7 {
        "7"
    } else if d == 8 {
        "8"
    } else {
        "9"
    };
    proof {
        reveal_strlit("0");
        reveal_strlit("1");
        reveal_strlit("2");
        reveal_strlit("3");
        reveal_strlit("4");
        reveal_strlit("5");
        reveal_strlit("6");
        reveal_strlit("7");
        reveal_strlit("8");
        reveal_strlit("9");
        assert(r@ =~= seq![digit_char(d as int)]);
    }
    r
}

/// `n` written in decimal, per `dec_spec`.
fn usize_to_dec(n: usize) -> (r: String)
    ensures
        r@ == dec_spec(n as nat),
    decreases n,
{
    if n < 10 {
        digit_str(n).to_owned()
    } else {
        let mut s = usize_to_dec(n / 10);
        s.append(digit_str(n % 10));
        s
    }
}

/// One next-template advance from position `i`: the cyclic successor.
pub open spec fn next_template_index(i: int) -> int {
    (i + 1) % template_count_spec()
}

/// `n` successive next-template advances from position `i`.
pub open spec fn advance_n(i: int, n: nat) -> int
    decreases n,
{
    if n == 0 {
        i
    } else {
        next_template_index(advance_n(i, (n - 1) as nat))
    }
}

/// One advance from an in-range position: the successor, wrapping to 0 from
/// the last position.
proof fn lemma_next_step(i: int)
    requires
        0 <= i < template_count_spec(),
    ensures
        0 <= next_template_index(i) < template_count_spec(),
        next_template_index(i) == if i == template_count_spec() - 1 {
            0
        } else {
            (i + 1)
        },
{
}

/// A full cycle of next-template advances — as many as the catalog counts —
/// returns to the starting position.
pub proof fn lemma_template_cycle(i: int)
    requires
        0 <= i < template_count_spec(),
    ensures
        advance_n(i, template_count_spec() as nat) == i,
{
    let a1 = advance_n(i, 1);
    let a2 = advance_n(i, 2);
    let a3 = advance_n(i, 3);
    let a4 = advance_n(i, 4);
    let a5 = advance_n(i, 5);
    let a6 = advance_n(i, 6);
    let a7 = advance_n(i, 7);
    assert(advance_n(i, 0) == i);
    lemma_next_step(i);
    lemma_next_step(a1);
    lemma_next_step(a2);
    lemma_next_step(a3);
    lemma_next_step(a4);
    lemma_next_step(a5);
    lemma_next_step(a6);
    lemma_next_step(a7);
    assert(advance_n(i, 8) == next_template_index(a7));
}

/// Retrieval of any out-of-range position yields the first template.
pub proof fn lemma_get_template_clamped(i: int)
    requires
        i >= template_count_spec(),
    ensures
        template_spec(clamped_index(i)) == template_spec(0),
{
}

} // verus!
