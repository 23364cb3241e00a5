use vstd::prelude::*;

verus! {

pub open spec fn is_digit(c: char) -> bool {
    '0' <= c && c <= '9'
}

pub open spec fn digit_value(c: char) -> nat {
    ((c as u32) as int - ('0' as u32) as int) as nat
}

pub open spec fn all_digits(s: Seq<char>) -> bool {
    forall|i: int| 0 <= i < s.len() ==> #[trigger] is_digit(s[i])
}

/// The number that a string of decimal digits stands for.
pub open spec fn digits_value(s: Seq<char>) -> nat
    decreases s.len(),
{
    if s.len() == 0 {
        0
    } else {
        digits_value(s.drop_last()) * 10 + digit_value(s.last())
    }
}

/// The digits of `s` once an optional leading `+` is taken off.
pub open spec fn unsigned_digits(s: Seq<char>) -> Seq<char> {
    if s.len() > 0 && s[0] == '+' {
        s.drop_first()
    } else {
        s
    }
}

/// The value of `s` read as an unsigned machine integer: an optional `+`
/// followed by one or more ASCII digits, whose value fits in a `usize`.
pub open spec fn usize_value(s: Seq<char>) -> Option<nat> {
    let d = unsigned_digits(s);
    if d.len() > 0 && all_digits(d) && digits_value(d) <= usize::MAX {
        Some(digits_value(d))
    } else {
        None
    }
}

/// The position, counted from zero, of the entry that a reply `t` selects
/// in a menu of `count` entries numbered from one; `None` when the reply is
/// not a number or is out of `1..=count`.
pub open spec fn selected_index(t: Seq<char>, count: nat) -> Option<nat> {
    match usize_value(t) {
        Some(n) => if 1 <= n && n <= count {
            Some((n - 1) as nat)
        } else {
            None
        },
        None => None,
    }
}

/// The characters of Unicode's White_Space property, which `char::is_whitespace`
/// and `str::trim` go by.
pub open spec fn is_white_space(c: char) -> bool {
    let u = c as u32;
    (0x09 <= u && u <= 0x0d) || u == 0x20 || u == 0x85 || u == 0xa0 || u == 0x1680 || (0x2000
        <= u && u <= 0x200a) || u == 0x2028 || u == 0x2029 || u == 0x202f || u == 0x205f || u
        == 0x3000
}

/// `s` without its leading white space.
pub open spec fn trim_front(s: Seq<char>) -> Seq<char>
    decreases s.len(),
{
    if s.len() > 0 && is_white_space(s[0]) {
        trim_front(s.drop_first())
    } else {
        s
    }
}

/// `s` without its trailing white space.
pub open spec fn trim_back(s: Seq<char>) -> Seq<char>
    decreases s.len(),
{
    if s.len() > 0 && is_white_space(s.last()) {
        trim_back(s.drop_last())
    } else {
        s
    }
}

/// A line without leading and trailing white space.
pub open spec fn trimmed(s: Seq<char>) -> Seq<char> {
    trim_back(trim_front(s))
}

/// Relies on `str::trim`: the string slice without leading and trailing
/// White_Space characters.
#[verifier::external_body]
fn trim_line(s: &str) -> (r: &str)
    ensures
        r@ == trimmed(s@),
{
    s.trim()
}

proof fn lemma_digits_value_grows(p: Seq<char>, c: char)
    requires
        is_digit(c),
    ensures
        digits_value(p.push(c)) == digits_value(p) * 10 + digit_value(c),
        digits_value(p.push(c)) >= digits_value(p),
{
    assert(p.push(c).drop_last() =~= p);
}

/// Reads `s` as an unsigned decimal number, as `str::parse::<usize>` does.
pub fn parse_decimal(s: &str) -> (r: Option<usize>)
    ensures
        r is Some <==> usize_value(s@) is Some,
        r is Some ==> usize_value(s@) == Some(r->0 as nat),
{
    let n = s.unicode_len();
    let mut start: usize = 0;
    if n > 0 && s.get_char(0) == '+' {
        start = 1;
    }
    proof {
        assert(unsigned_digits(s@) =~= s@.subrange(start as int, n as int));
    }
    if start >= n {
        return None;
    }
    let mut i: usize = start;
    let mut v: usize = 0;
    let mut overflow: bool = false;
    while i < n
        invariant
            start <= i <= n,
            n == s@.len(),
            unsigned_digits(s@) =~= s@.subrange(start as int, n as int),
            all_digits(s@.subrange(start as int, i as int)),
            !overflow ==> v as nat == digits_value(s@.subrange(start as int, i as int)),
            overflow ==> digits_value(s@.subrange(start as int, i as int)) > usize::MAX,
        decreases n - i,
    {
        let c = s.get_char(i);
        if c < '0' || c > '9' {
            proof {
                let d = unsigned_digits(s@);
                assert(d[i - start] == c);
                assert(!is_digit(d[i - start]));
            }
            return None;
        }
        let ghost prev = s@.subrange(start as int, i as int);
        proof {
            assert(s@.subrange(start as int, i + 1) =~= prev.push(c));
            lemma_digits_value_grows(prev, c);
        }
        let d: usize = (c as u32 - '0' as u32) as usize;
        assert(d as nat == digit_value(c));
        if !overflow {
            if v > (usize::MAX - d) / 10 {
                assert(v * 10 + d > usize::MAX) by (nonlinear_arith)
                    requires
                        v > (usize::MAX - d) / 10,
                        d <= 9,
                ;
                overflow = true;
            } else {
                assert(v * 10 + d <= usize::MAX) by (nonlinear_arith)
                    requires
                        v <= (usize::MAX - d) / 10,
                        d <= 9,
                ;
                v = v * 10 + d;
            }
        }
        i = i + 1;
    }
    proof {
        assert(s@.subrange(start as int, n as int) =~= unsigned_digits(s@));
    }
    if overflow {
        None
    } else {
        Some(v)
    }
}

/// Picks the entry that `entry`, a reply already stripped of surrounding
/// white space, selects in a menu of `count` entries numbered from one.
/// Replies that are not numbers, and numbers outside `1..=count`, select
/// nothing.
pub fn selection_index(entry: &str, count: usize) -> (r: Option<usize>)
    ensures
        r is Some <==> selected_index(entry@, count as nat) is Some,
        r is Some ==> selected_index(entry@, count as nat) == Some(r->0 as nat),
{
    match parse_decimal(entry) {
        Some(n) => if 1 <= n && n <= count {
            Some(n - 1)
        } else {
            None
        },
        None => None,
    }
}

/// Picks the entry that a line typed by the user selects in a menu of
/// `count` entries numbered from one; white space around the number is
/// ignored.
pub fn read_selection(line: &str, count: usize) -> (r: Option<usize>)
    ensures
        r is Some <==> selected_index(trimmed(line@), count as nat) is Some,
        r is Some ==> selected_index(trimmed(line@), count as nat) == Some(r->0 as nat),
{
    let t = trim_line(line);
    selection_index(t, count)
}

/// A playlist offered in the selection menu.
pub struct PlaylistCandidate {
    pub name: String,
    pub id: String,
}

/// The identifier of the playlist that a line typed by the user selects in
/// the menu of `candidates`, numbered from one; `None` when the line must be
/// asked again.
pub fn pick_playlist(candidates: &Vec<PlaylistCandidate>, line: &str) -> (r: Option<String>)
    ensures
        match selected_index(trimmed(line@), candidates@.len()) {
            Some(i) => r is Some && r->0@ == candidates@[i as int].id@,
            None => r is None,
        },
{
    match read_selection(line, candidates.len()) {
        Some(i) => Some(candidates[i].id.clone()),
        None => None,
    }
}

/// A reply selects an entry exactly when it is a number from one to the
/// number of entries: zero, one past the last entry, the empty reply and any
/// reply with a character that is not a digit select nothing.
pub proof fn lemma_selection_in_range(t: Seq<char>, count: nat)
    ensures
        selected_index(t, count) is Some <==> exists|n: nat|
            usize_value(t) == Some(n) && 1 <= n <= count,
        selected_index(t, count) is Some ==> usize_value(t) == Some(
            selected_index(t, count)->0 + 1,
        ),
        usize_value(t) == Some(0nat) ==> selected_index(t, count) is None,
        usize_value(t) == Some(count + 1) ==> selected_index(t, count) is None,
        t.len() == 0 ==> selected_index(t, count) is None,
        !all_digits(unsigned_digits(t)) ==> selected_index(t, count) is None,
{
    if selected_index(t, count) is Some {
        let n = usize_value(t)->0;
        assert(usize_value(t) == Some(n) && 1 <= n <= count);
    }
}

} // verus!
