use vstd::prelude::*;
use vstd::string::*;
use crate::tags::chars_to_string;

verus! {

/// The decimal digit `d` as a character.
pub open spec fn digit_char(d: int) -> char {
    if d == 0 {
        '0'
    } else if d == 1 {
        '1'
    } else if d == 2 {
        '2'
    } else if d == 3 {
        '3'
    } else if d == 4 {
        '4'
    } else if d == 5 {
        '5'
    } else if d == 6 {
        '6'
    } else if d == 7 {
        '7'
    } else if d == 8 {
        '8'
    } else {
        '9'
    }
}

/// The decimal digits of `n`, most significant first, no leading zeros
/// (except for `n == 0` itself).
pub open spec fn decimal_spec(n: int) -> Seq<char>
    decreases n,
{
    if n < 10 {
        seq![digit_char(n)]
    } else {
        decimal_spec(n / 10).push(digit_char(n % 10))
    }
}

fn digit(d: u64) -> (c: char)
    requires
        d < 10,
    ensures
        c == digit_char(d as int),
{
    if d == 0 {
        '0'
    } else if d == 1 {
        '1'
    } else if d == 2 {
        '2'
    } else if d == 3 {
        '3'
    } else if d == 4 {
        '4'
    } else if d == 5 {
        '5'
    } else if d == 6 {
        '6'
    } else if d == 7 {
        '7'
    } else if d == 8 {
        '8'
    } else {
        '9'
    }
}

/// The decimal digits of `n`, as characters.
pub fn decimal_chars(n: u64) -> (v: Vec<char>)
    ensures
        v@ == decimal_spec(n as int),
    decreases n,
{
    if n < 10 {
        let mut v: Vec<char> = Vec::new();
        v.push(digit(n));
        proof {
            assert(v@ =~= seq![digit_char(n as int)]);
        }
        v
    } else {
        let mut v = decimal_chars(n / 10);
        v.push(digit(n % 10));
        v
    }
}

/// Scan a path-like string from its end: the characters already passed are
/// in `acc`; a dot ends the scan with the extension in hand, unless it is
/// the first character of the final component (a hidden-file name has no
/// extension); a separator or the start of the string means there is none.
pub open spec fn extension_rec(prefix: Seq<char>, acc: Seq<char>) -> Option<Seq<char>>
    decreases prefix.len(),
{
    if prefix.len() == 0 {
        None
    } else if prefix.last() == '.' {
        if prefix.len() == 1 || prefix[prefix.len() - 2] == '/' {
            None
        } else {
            Some(acc)
        }
    } else if prefix.last() == '/' {
        None
    } else {
        extension_rec(prefix.drop_last(), seq![prefix.last()] + acc)
    }
}

/// The extension of a URL-like path: the characters after the last `.` of
/// its final `/`-separated component; none if that component has no dot, or
/// if its only dot is the leading character (a hidden-file name has no
/// extension).
pub open spec fn extension_spec(s: Seq<char>) -> Option<Seq<char>> {
    extension_rec(s, Seq::empty())
}

/// Find the extension of a URL-like path, as characters.
pub fn extension_of(url: &str) -> (r: Option<Vec<char>>)
    ensures
        r is Some <==> extension_spec(url@) is Some,
        r matches Some(ext) ==> extension_spec(url@) == Some(ext@),
{
    let n = url.unicode_len();
    let mut acc: Vec<char> = Vec::new();
    let mut j: usize = n;
    proof {
        assert(url@.take(n as int) =~= url@);
    }
    while j > 0
        invariant
            j <= n,
            n == url@.len(),
            extension_rec(url@.take(j as int), acc@) == extension_spec(url@),
        decreases j,
    {
        let c = url.get_char(j - 1);
        proof {
            assert(url@.take(j as int).last() == url@[j - 1]);
        }
        if c == '.' {
            if j == 1 || url.get_char(j - 2) == '/' {
                proof {
                    if j > 1 {
                        assert(url@.take(j as int)[j - 2] == url@[j - 2]);
                    }
                }
                return None;
            }
            proof {
                assert(url@.take(j as int)[j - 2] == url@[j - 2]);
            }
            return Some(acc);
        }
        if c == '/' {
            return None;
        }
        let ghost acc_before = acc@;
        acc.insert(0, c);
        proof {
            assert(url@.take(j as int).drop_last() =~= url@.take(j - 1));
            assert(acc@ =~= seq![url@.take(j as int).last()] + acc_before);
        }
        j = j - 1;
    }
    proof {
        assert(url@.take(0) =~= Seq::<char>::empty());
    }
    None
}

/// The local image file name for a post: its id, a dot, and the extension
/// of its resource URL; none when the URL carries no extension.
pub fn image_file_name(id: u64, url: &str) -> (r: Option<String>)
    ensures
        r is Some <==> extension_spec(url@) is Some,
        r matches Some(name) ==> (extension_spec(url@) matches Some(ext) && name@ == decimal_spec(
            id as int,
        ) + seq!['.'] + ext),
{
    match extension_of(url) {
        None => None,
        Some(mut ext) => {
            let mut v = decimal_chars(id);
            v.push('.');
            v.append(&mut ext);
            proof {
                assert(v@ =~= decimal_spec(id as int) + seq!['.'] + extension_spec(
                    url@,
                ).unwrap());
            }
            Some(chars_to_string(&v))
        },
    }
}

/// The sidecar tag file name for a post: its id with the `txt` extension.
pub fn sidecar_file_name(id: u64) -> (r: String)
    ensures
        r@ == decimal_spec(id as int) + seq!['.', 't', 'x', 't'],
{
    let mut v = decimal_chars(id);
    v.push('.');
    v.push('t');
    v.push('x');
    v.push('t');
    proof {
        assert(v@ =~= decimal_spec(id as int) + seq!['.', 't', 'x', 't']);
    }
    chars_to_string(&v)
}

} // verus!
