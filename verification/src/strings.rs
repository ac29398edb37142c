//! String helpers: decimal rendering, list joining, query encoding, and
//! substring search, with exact character-level contracts.
use vstd::prelude::*;
use vstd::string::StrSliceExecFns;
use vstd::string::StringExecFns;

verus! {

/// The uppercase form of a character, as `char::to_uppercase` yields it;
/// it depends on the character alone.
pub uninterp spec fn upper_of(c: char) -> Seq<char>;

/// Relies on `char::to_uppercase` of std: the uppercase form of one
/// character, one or more characters long.
#[verifier::external_body]
pub fn char_uppercase(c: char) -> (r: String)
    ensures
        r@ == upper_of(c),
{
    c.to_uppercase().collect::<String>()
}

/// Relies on `String::push` of std: appends exactly one character.
#[verifier::external_body]
pub fn push_char(s: &mut String, c: char)
    ensures
        final(s)@ == old(s)@.push(c),
{
    s.push(c);
}

pub open spec fn dec_digit_char(d: nat) -> char {
    if d == 0 {
        '0'
    } else if d == 1 {
        '1'
    } else if d == 2 {
        '2'
    } else if d == 3 {
        '3'
    } else if d == 4 {
        '4'
    } else if d == 5 {
        '5'
    } else if d == 6 {
        '6'
    } else if d == 7 {
        '7'
    } else if d == 8 {
        '8'
    } else {
        '9'
    }
}

/// The decimal rendering of a number, most significant digit first.
pub open spec fn dec_str_of(n: nat) -> Seq<char>
    decreases n,
{
    if n < 10 {
        seq![dec_digit_char(n)]
    } else {
        dec_str_of(n / 10).push(dec_digit_char(n % 10))
    }
}

fn dec_digit(d: u64) -> (c: char)
    requires
        d < 10,
    ensures
        c == dec_digit_char(d as nat),
{
    match d {
        0 => '0',
        1 => '1',
        2 => '2',
        3 => '3',
        4 => '4',
        5 => '5',
        6 => '6',
        7 => '7',
        8 => '8',
        _ => '9',
    }
}

pub fn u64_to_string(n: u64) -> (r: String)
    ensures
        r@ == dec_str_of(n as nat),
    decreases n,
{
    if n < 10 {
        let mut s = String::new();
        push_char(&mut s, dec_digit(n));
        proof {
            assert(s@ =~= dec_str_of(n as nat));
        }
        s
    } else {
        let mut s = u64_to_string(n / 10);
        push_char(&mut s, dec_digit(n % 10));
        s
    }
}

/// A number rendered on at least two digits, a leading zero supplied.
pub open spec fn padded2_of(n: nat) -> Seq<char> {
    if n < 10 {
        seq!['0'].push(dec_digit_char(n))
    } else {
        dec_str_of(n)
    }
}

pub fn u64_to_padded2_string(n: u64) -> (r: String)
    ensures
        r@ == padded2_of(n as nat),
{
    if n < 10 {
        let mut s = String::new();
        push_char(&mut s, '0');
        push_char(&mut s, dec_digit(n));
        proof {
            assert(s@ =~= padded2_of(n as nat));
        }
        s
    } else {
        u64_to_string(n)
    }
}

/// A duration in milliseconds rendered as minutes and two seconds digits,
/// separated by a colon.
pub open spec fn clock_str_of(ms: nat) -> Seq<char> {
    dec_str_of(ms / 1000 / 60) + seq![':'] + padded2_of((ms / 1000) % 60)
}

pub fn milliseconds_to_clock_string(ms: u64) -> (r: String)
    ensures
        r@ == clock_str_of(ms as nat),
{
    let total_seconds: u64 = ms / 1000;
    let minutes: u64 = total_seconds / 60;
    let seconds: u64 = total_seconds % 60;
    let mut s = u64_to_string(minutes);
    push_char(&mut s, ':');
    let sec = u64_to_padded2_string(seconds);
    let r = s.concat(sec.as_str());
    proof {
        assert(r@ =~= clock_str_of(ms as nat));
    }
    r
}

/// The items up to index `k`, each followed by a comma and a space except
/// the last item of the whole sequence.
pub open spec fn comma_join_upto(items: Seq<Seq<char>>, k: int) -> Seq<char>
    decreases k,
{
    if k <= 0 {
        Seq::<char>::empty()
    } else {
        comma_join_upto(items, k - 1) + items[k - 1] + (if k < items.len() {
            seq![',', ' ']
        } else {
            Seq::<char>::empty()
        })
    }
}

/// All items joined, a comma and a space between neighbours.
pub open spec fn comma_join(items: Seq<Seq<char>>) -> Seq<char> {
    comma_join_upto(items, items.len() as int)
}

pub fn join_with_commas(items: &Vec<String>) -> (r: String)
    ensures
        r@ == comma_join(items.deep_view()),
{
    let mut s = String::new();
    proof {
        assert(s@ =~= comma_join_upto(items.deep_view(), 0));
    }
    for i in 0..items.len()
        invariant
            s@ == comma_join_upto(items.deep_view(), i as int),
            items.deep_view().len() == items.len(),
            forall|j: int| 0 <= j < items.len() ==> items.deep_view()[j] == items@[j]@,
    {
        s.append(items[i].as_str());
        if i + 1 < items.len() {
            push_char(&mut s, ',');
            push_char(&mut s, ' ');
        }
        proof {
            assert(s@ =~= comma_join_upto(items.deep_view(), i + 1));
        }
    }
    s
}

/// The characters from index `i` on, each space replaced by the three
/// characters of its percent escape.
pub open spec fn space_escaped_from(s: Seq<char>, i: int) -> Seq<char>
    decreases s.len() - i,
{
    if i < 0 || i >= s.len() {
        Seq::<char>::empty()
    } else {
        (if s[i] == ' ' {
            seq!['%', '2', '0']
        } else {
            seq![s[i]]
        }) + space_escaped_from(s, i + 1)
    }
}

/// The whole string with every space percent-escaped.
pub open spec fn space_escaped(s: Seq<char>) -> Seq<char> {
    space_escaped_from(s, 0)
}

pub fn escape_spaces(s: &str) -> (r: String)
    ensures
        r@ == space_escaped(s@),
{
    let n = s.unicode_len();
    let mut out = String::new();
    for i in 0..n
        invariant
            n == s@.len(),
            out@ + space_escaped_from(s@, i as int) == space_escaped(s@),
    {
        let c = s.get_char(i);
        if c == ' ' {
            push_char(&mut out, '%');
            push_char(&mut out, '2');
            push_char(&mut out, '0');
        } else {
            push_char(&mut out, c);
        }
        proof {
            assert(out@ + space_escaped_from(s@, i + 1) =~= space_escaped(s@));
        }
    }
    proof {
        assert(out@ =~= space_escaped(s@));
    }
    out
}

/// Whether two string slices carry the same characters.
pub fn str_eq(a: &str, b: &str) -> (r: bool)
    ensures
        r == (a@ == b@),
{
    let n = a.unicode_len();
    let m = b.unicode_len();
    if n != m {
        proof {
            assert(a@.len() != b@.len());
        }
        return false;
    }
    for i in 0..n
        invariant
            n == a@.len(),
            n == b@.len(),
            forall|j: int| 0 <= j < i ==> a@[j] == b@[j],
    {
        if a.get_char(i) != b.get_char(i) {
            return false;
        }
    }
    proof {
        assert(a@ =~= b@);
    }
    true
}

/// Whether the four characters of the source-directory prefix stand at
/// index `j` of `s`.
pub open spec fn src_marker_at(s: Seq<char>, j: int) -> bool {
    &&& 0 <= j
    &&& j + 4 <= s.len()
    &&& s[j] == 's'
    &&& s[j + 1] == 'r'
    &&& s[j + 2] == 'c'
    &&& s[j + 3] == '/'
}

/// What follows the first occurrence of the source-directory marker in a
/// path, used to shorten file names in diagnostics; empty when the marker
/// is absent or no path is given.
#[verifier::loop_isolation(false)]
pub fn extract_after_src(path: Option<&str>) -> (r: String)
    ensures
        match path {
            Option::Some(p) => {
                if exists|j: int| src_marker_at(p@, j) {
                    exists|j: int|
                        {
                            &&& src_marker_at(p@, j)
                            &&& forall|k: int| 0 <= k < j ==> !src_marker_at(p@, k)
                            &&& r@ == p@.subrange(j + 4, p@.len() as int)
                        }
                } else {
                    r@.len() == 0
                }
            },
            Option::None => r@.len() == 0,
        },
{
    match path {
        Option::Some(p) => {
            let n = p.unicode_len();
            if n < 4 {
                return String::new();
            }
            let mut i: usize = 0;
            while i <= n - 4
                invariant
                    n == p@.len(),
                    4 <= n,
                    i <= n - 3,
                    forall|k: int| 0 <= k < i ==> !src_marker_at(p@, k),
                decreases n - i,
            {
                if p.get_char(i) == 's' && p.get_char(i + 1) == 'r' && p.get_char(i + 2) == 'c'
                    && p.get_char(i + 3) == '/' {
                    let tail = p.substring_char(i + 4, n);
                    let r = tail.to_owned();
                    proof {
                        assert(src_marker_at(p@, i as int));
                        assert(r@ == p@.subrange(i + 4, p@.len() as int));
                    }
                    return r;
                }
                proof {
                    assert(!src_marker_at(p@, i as int));
                }
                i = i + 1;
            }
            proof {
                assert(forall|j: int| src_marker_at(p@, j) ==> j + 4 <= n && 0 <= j < i);
            }
            String::new()
        },
        Option::None => String::new(),
    }
}

/// Whether the scheme separator stands at index `j`.
pub open spec fn scheme_sep_at(s: Seq<char>, j: int) -> bool {
    &&& 0 <= j
    &&& j + 3 <= s.len()
    &&& s[j] == ':'
    &&& s[j + 1] == '/'
    &&& s[j + 2] == '/'
}

fn find_scheme_sep(s: &str, n: usize) -> (r: Option<usize>)
    requires
        n == s@.len(),
        3 <= n,
    ensures
        match r {
            Option::Some(i) => scheme_sep_at(s@, i as int) && i + 3 <= n,
            Option::None => !exists|j: int| scheme_sep_at(s@, j),
        },
{
    let mut i: usize = 0;
    while i <= n - 3
        invariant
            n == s@.len(),
            3 <= n,
            i <= n - 2,
            forall|k: int| 0 <= k < i ==> !scheme_sep_at(s@, k),
        decreases n - i,
    {
        if s.get_char(i) == ':' && s.get_char(i + 1) == '/' && s.get_char(i + 2) == '/' {
            proof {
                assert(scheme_sep_at(s@, i as int));
            }
            return Option::Some(i);
        }
        proof {
            assert(!scheme_sep_at(s@, i as int));
        }
        i = i + 1;
    }
    proof {
        assert(forall|j: int| scheme_sep_at(s@, j) ==> j + 3 <= n && 0 <= j < i);
    }
    Option::None
}

/// The host-and-port part of a redirect URL: the characters between the
/// first scheme separator and the next slash after it; empty when either
/// is absent.
#[verifier::loop_isolation(false)]
pub fn get_host_from_redirect_url(redirect_url: &str) -> (r: String)
    ensures
        (!exists|j: int| scheme_sep_at(redirect_url@, j)) ==> r@.len() == 0,
{
    let s = redirect_url;
    let n = s.unicode_len();
    if n < 3 {
        return String::new();
    }
    let sep = find_scheme_sep(s, n);
    let start: usize;
    match sep {
        Option::Some(i) => {
            start = i + 3;
        },
        Option::None => {
            return String::new();
        },
    }
    let mut e: usize = start;
    while e < n
        invariant
            n == s@.len(),
            start <= e <= n,
            exists|j: int| scheme_sep_at(s@, j),
        decreases n - e,
    {
        if s.get_char(e) == '/' {
            return s.substring_char(start, e).to_owned();
        }
        e = e + 1;
    }
    String::new()
}

/// A word sequence with the first character of the string and of every
/// character following a space replaced by its uppercase form.
pub open spec fn capitalized_words_from(s: Seq<char>, i: int) -> Seq<char>
    decreases s.len() - i,
{
    if i < 0 || i >= s.len() {
        Seq::<char>::empty()
    } else {
        (if i == 0 || s[i - 1] == ' ' {
            upper_of(s[i])
        } else {
            seq![s[i]]
        }) + capitalized_words_from(s, i + 1)
    }
}

pub open spec fn capitalized_words(s: Seq<char>) -> Seq<char> {
    capitalized_words_from(s, 0)
}

/// Uppercases the first character of every space-separated word, leaving
/// the other characters alone.
pub fn capitalize_words(s: &str) -> (r: String)
    ensures
        r@ == capitalized_words(s@),
{
    let n = s.unicode_len();
    let mut out = String::new();
    let mut prev_space = true;
    for i in 0..n
        invariant
            n == s@.len(),
            prev_space == (i == 0 || s@[i - 1] == ' '),
            out@ + capitalized_words_from(s@, i as int) == capitalized_words(s@),
    {
        let c = s.get_char(i);
        if prev_space {
            let up = char_uppercase(c);
            out.append(up.as_str());
        } else {
            push_char(&mut out, c);
        }
        prev_space = c == ' ';
        proof {
            assert(out@ + capitalized_words_from(s@, i + 1) =~= capitalized_words(s@));
        }
    }
    proof {
        assert(out@ =~= capitalized_words(s@));
    }
    out
}

/// The string with only its first character uppercased.
pub open spec fn capitalized_first(s: Seq<char>) -> Seq<char> {
    if s.len() == 0 {
        Seq::<char>::empty()
    } else {
        upper_of(s[0]) + s.drop_first()
    }
}

pub trait Capitalize {
    /// The string with its first character replaced by its uppercase form.
    fn capitalize(&self) -> (r: String);
}

impl Capitalize for String {
    fn capitalize(&self) -> (r: String)
        ensures
            r@ == capitalized_first(self@),
    {
        let n = self.as_str().unicode_len();
        if n == 0 {
            return String::new();
        }
        let first = self.as_str().get_char(0);
        let mut out = char_uppercase(first);
        let rest = self.as_str().substring_char(1, n);
        out.append(rest);
        proof {
            assert(out@ =~= capitalized_first(self@));
        }
        out
    }
}

pub trait ToStringVec {
    /// The same items as owned strings, in the same order.
    fn to_string_vec(&self) -> (r: Vec<String>);
}

impl ToStringVec for Vec<&str> {
    fn to_string_vec(&self) -> (r: Vec<String>)
        ensures
            r.deep_view() == self.deep_view(),
    {
        let mut out = Vec::<String>::new();
        for i in 0..self.len()
            invariant
                out@.len() == i,
                forall|j: int| 0 <= j < i ==> out@[j]@ == self@[j]@,
        {
            out.push(self[i].to_owned());
        }
        proof {
            assert(out.deep_view() =~= self.deep_view());
        }
        out
    }
}

} // verus!
