//! Small text utilities: splitting at a separator, trimming whitespace,
//! dropping a namespace prefix from an element name, and writing integers in
//! decimal.
use vstd::prelude::*;
use vstd::string::*;

verus! {

/// The characters with the Unicode `White_Space` property.
pub open spec fn is_white_space(c: char) -> bool {
    ||| '\u{9}' <= c <= '\u{d}'
    ||| c == ' '
    ||| c == '\u{85}'
    ||| c == '\u{a0}'
    ||| c == '\u{1680}'
    ||| '\u{2000}' <= c <= '\u{200a}'
    ||| c == '\u{2028}'
    ||| c == '\u{2029}'
    ||| c == '\u{202f}'
    ||| c == '\u{205f}'
    ||| c == '\u{3000}'
}

/// `s` without its leading white space.
pub open spec fn trim_start(s: Seq<char>) -> Seq<char>
    decreases s.len(),
{
    if s.len() > 0 && is_white_space(s[0]) {
        trim_start(s.drop_first())
    } else {
        s
    }
}

/// `s` without its trailing white space.
pub open spec fn trim_end(s: Seq<char>) -> Seq<char>
    decreases s.len(),
{
    if s.len() > 0 && is_white_space(s.last()) {
        trim_end(s.drop_last())
    } else {
        s
    }
}

/// `s` without leading and trailing white space.
pub open spec fn trimmed(s: Seq<char>) -> Seq<char> {
    trim_end(trim_start(s))
}

/// Relies on `str::trim`: it removes leading and trailing characters with the
/// Unicode `White_Space` property and keeps the rest.
#[verifier::external_body]
pub(crate) fn trim(s: &str) -> (r: &str)
    ensures
        r@ == trimmed(s@),
{
    s.trim()
}

/// The pieces of `s` between occurrences of `sep`, in order. There is always
/// at least one piece, and one more than there are separators.
pub open spec fn fields(s: Seq<char>, sep: char) -> Seq<Seq<char>>
    decreases s.len(),
{
    if s.len() == 0 {
        seq![Seq::<char>::empty()]
    } else {
        let prev = fields(s.drop_last(), sep);
        if s.last() == sep {
            prev.push(Seq::<char>::empty())
        } else {
            prev.update(prev.len() - 1, prev.last().push(s.last()))
        }
    }
}

/// There is always at least one field.
pub proof fn lemma_fields_not_empty(s: Seq<char>, sep: char)
    ensures
        fields(s, sep).len() >= 1,
    decreases s.len(),
{
    if s.len() > 0 {
        lemma_fields_not_empty(s.drop_last(), sep);
    }
}

/// The views of a sequence of strings.
pub open spec fn views(v: Seq<String>) -> Seq<Seq<char>> {
    v.map_values(|p: String| p@)
}

/// Splits `s` at every occurrence of `sep`.
pub fn split_fields(s: &str, sep: char) -> (parts: Vec<String>)
    ensures
        views(parts@) == fields(s@, sep),
{
    let n = s.unicode_len();
    let mut parts: Vec<String> = Vec::new();
    let mut start: usize = 0;
    let mut i: usize = 0;
    assert(s@.subrange(0, 0) =~= Seq::<char>::empty());
    assert(views(parts@).push(s@.subrange(0, 0)) =~= seq![Seq::<char>::empty()]);
    while i < n
        invariant
            n == s@.len(),
            start <= i <= n,
            views(parts@).push(s@.subrange(start as int, i as int)) == fields(
                s@.subrange(0, i as int),
                sep,
            ),
        decreases n - i,
    {
        let c = s.get_char(i);
        let ghost prefix = s@.subrange(0, i as int + 1);
        assert(prefix.drop_last() =~= s@.subrange(0, i as int));
        assert(prefix.last() == c);
        if c == sep {
            let piece = String::from_str(s.substring_char(start, i));
            let ghost before = parts@;
            parts.push(piece);
            assert(s@.subrange(i as int + 1, i as int + 1) =~= Seq::<char>::empty());
            assert(views(parts@) =~= views(before).push(piece@));
            start = i + 1;
        } else {
            let ghost before = views(parts@).push(s@.subrange(start as int, i as int));
            assert(s@.subrange(start as int, i as int + 1) =~= s@.subrange(
                start as int,
                i as int,
            ).push(c));
            assert(views(parts@).push(s@.subrange(start as int, i as int + 1)) =~= before.update(
                before.len() - 1,
                before.last().push(c),
            ));
        }
        i = i + 1;
    }
    assert(s@.subrange(0, n as int) =~= s@);
    let last = String::from_str(s.substring_char(start, n));
    let ghost before = parts@;
    parts.push(last);
    assert(views(parts@) =~= views(before).push(last@));
    parts
}

/// The local part of an element name: for `{uri}local` the text after the
/// first `}` (up to a second `}`, if any); a name without `}` unchanged.
pub open spec fn local_name(name: Seq<char>) -> Seq<char> {
    let parts = fields(name, '}');
    if parts.len() > 1 {
        parts[1]
    } else {
        name
    }
}

/// Drops a `{namespace-uri}` prefix from an element name, so that
/// `{http://www.opengis.net/kml/2.2}coordinates` becomes `coordinates`.
pub fn simplify_name(name: &str) -> (local: String)
    ensures
        local@ == local_name(name@),
{
    let parts = split_fields(name, '}');
    if parts.len() > 1 {
        assert(parts@[1]@ == views(parts@)[1]);
        parts[1].clone()
    } else {
        String::from_str(name)
    }
}

/// The decimal digit for `d`, which is below ten.
pub open spec fn digit(d: int) -> char {
    if d == 0 {
        '0'
    } else if d == 1 {
        '1'
    } else if d == 2 {
        '2'
    } else if d == 3 {
        '3'
    } else if d == 4 {
        '4'
    } else if d == 5 {
        '5'
    } else if d == 6 {
        '6'
    } else if d == 7 {
        '7'
    } else if d == 8 {
        '8'
    } else {
        '9'
    }
}

/// `n` written in decimal, without leading zeros.
pub open spec fn decimal_digits(n: nat) -> Seq<char>
    decreases n,
{
    if n < 10 {
        seq![digit(n as int)]
    } else {
        decimal_digits(n / 10).push(digit((n % 10) as int))
    }
}

fn digit_str(d: usize) -> (r: &'static str)
    requires
        d < 10,
    ensures
        r@ == seq![digit(d as int)],
{
    let all = "0123456789";
    proof {
        reveal_strlit("0123456789");
    }
    let r = all.substring_char(d, d + 1);
    assert(r@ =~= seq![digit(d as int)]);
    r
}

/// Writes `n` in decimal.
pub fn decimal(n: usize) -> (r: String)
    ensures
        r@ == decimal_digits(n as nat),
    decreases n,
{
    if n < 10 {
        String::from_str(digit_str(n))
    } else {
        let mut r = decimal(n / 10);
        r.append(digit_str(n % 10));
        r
    }
}

/// Relies on `char::is_whitespace`: true exactly for the characters with the
/// Unicode `White_Space` property.
#[verifier::external_body]
fn is_whitespace(c: char) -> (r: bool)
    ensures
        r == is_white_space(c),
{
    c.is_whitespace()
}

/// The words of `s`: its maximal runs of characters other than white space,
/// in order.
pub open spec fn words(s: Seq<char>) -> Seq<Seq<char>>
    decreases s.len(),
{
    if s.len() == 0 {
        seq![]
    } else {
        let prev = words(s.drop_last());
        let c = s.last();
        if is_white_space(c) {
            prev
        } else if s.len() > 1 && !is_white_space(s[s.len() - 2]) {
            prev.update(prev.len() - 1, prev.last().push(c))
        } else {
            prev.push(seq![c])
        }
    }
}

/// Each of `ws` without its namespace prefix and followed by a space.
pub open spec fn joined_local_names(ws: Seq<Seq<char>>) -> Seq<char>
    decreases ws.len(),
{
    if ws.len() == 0 {
        seq![]
    } else {
        joined_local_names(ws.drop_last()) + local_name(ws.last()) + seq![' ']
    }
}

/// Shortens a message by dropping the namespace prefix of each of its words;
/// the words are written each followed by one space.
pub fn simplify_message(msg: &str) -> (r: String)
    ensures
        r@ == joined_local_names(words(msg@)),
{
    let n = msg.unicode_len();
    let mut r = String::new();
    let mut start: usize = 0;
    let mut in_word = false;
    let ghost mut done: Seq<Seq<char>> = seq![];
    let mut i: usize = 0;
    proof {
        reveal_strlit(" ");
    }
    assert(msg@.subrange(0, 0) =~= Seq::<char>::empty());
    while i < n
        invariant
            n == msg@.len(),
            start <= i <= n,
            " "@ == seq![' '],
            in_word ==> start < i && !is_white_space(msg@[i - 1]),
            !in_word ==> i == 0 || is_white_space(msg@[i - 1]),
            words(msg@.subrange(0, i as int)) == if in_word {
                done.push(msg@.subrange(start as int, i as int))
            } else {
                done
            },
            r@ == joined_local_names(done),
        decreases n - i,
    {
        let c = msg.get_char(i);
        let ghost prefix = msg@.subrange(0, i as int + 1);
        assert(prefix.drop_last() =~= msg@.subrange(0, i as int));
        assert(prefix.last() == c);
        if is_whitespace(c) {
            if in_word {
                let word = msg.substring_char(start, i);
                let local = simplify_name(word);
                r.append(local.as_str());
                r.append(" ");
                proof {
                    let next = done.push(word@);
                    assert(next.drop_last() =~= done);
                    done = next;
                }
                in_word = false;
            }
        } else {
            if in_word {
                assert(prefix[prefix.len() - 2] == msg@[i - 1]);
                assert(msg@.subrange(start as int, i as int + 1) =~= msg@.subrange(
                    start as int,
                    i as int,
                ).push(c));
                assert(done.push(msg@.subrange(start as int, i as int + 1)) =~= done.push(
                    msg@.subrange(start as int, i as int),
                ).update(done.len() as int, msg@.subrange(start as int, i as int).push(c)));
            } else {
                start = i;
                in_word = true;
                assert(msg@.subrange(start as int, i as int + 1) =~= seq![c]);
            }
        }
        i = i + 1;
    }
    assert(msg@.subrange(0, n as int) =~= msg@);
    if in_word {
        let word = msg.substring_char(start, n);
        let local = simplify_name(word);
        r.append(local.as_str());
        r.append(" ");
        proof {
            let next = done.push(word@);
            assert(next.drop_last() =~= done);
            done = next;
        }
    }
    r
}

} // verus!
