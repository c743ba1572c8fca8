//! What holds of the operations on text.

use crate::host_laws::law_white_space_is_ignored;
use crate::host_laws::lemma_trimmed;
use crate::host_laws::lemma_trimmed_is;
use crate::proxy::configured;
use crate::proxy::configured_option;
use crate::text::before;
use crate::text::decimal;
use crate::text::is_white_space;
use crate::text::lemma_position_is;
use crate::text::lowercase;
use crate::text::replaced;
use crate::text::stripped;
use crate::text::trimmed;
use vstd::prelude::*;

verus! {

/// Among the first 256 characters the white space is the space, the characters from the tab to the
/// carriage return, the next line character and the space that does not break.
pub proof fn law_white_space(c: char)
    requires
        c <= '\u{ff}',
    ensures
        is_white_space(c) <==> {
            ||| '\t' <= c <= '\r'
            ||| c == ' '
            ||| c == '\u{85}'
            ||| c == '\u{a0}'
        },
{
}

/// Lower case moves the letters from `A` to `Z` by 32 places, and leaves every other character and
/// the length of the text alone.
pub proof fn law_lowercase(s: Seq<char>)
    ensures
        lowercase(s).len() == s.len(),
        forall|i: int|
            0 <= i < s.len() ==> if 'A' <= s[i] <= 'Z' {
                (#[trigger] lowercase(s)[i]) as int == s[i] as int + 32
            } else {
                lowercase(s)[i] == s[i]
            },
{
}

/// What stands before the first of a character: the text in front of it, or the whole text where
/// the character does not occur.
pub proof fn law_before(front: Seq<char>, c: char, rest: Seq<char>)
    requires
        forall|i: int| 0 <= i < front.len() ==> front[i] != c,
    ensures
        before(front, c) == front,
        before(front + seq![c] + rest, c) == front,
{
    let n = front.len() as int;
    lemma_position_is(front, c, n);
    assert(before(front, c) =~= front);
    let whole = front + seq![c] + rest;
    assert forall|i: int| 0 <= i < n implies whole[i] != c by {
        assert(whole[i] == front[i]);
    }
    assert(whole[n] == c);
    lemma_position_is(whole, c, n);
    assert(before(whole, c) =~= front);
}

/// Trimming takes away the white space at both ends and nothing else.
pub proof fn law_trimmed(a: Seq<char>, s: Seq<char>, b: Seq<char>)
    requires
        forall|i: int| 0 <= i < a.len() ==> is_white_space(a[i]),
        forall|i: int| 0 <= i < b.len() ==> is_white_space(b[i]),
        s.len() > 0 ==> !is_white_space(s[0]) && !is_white_space(s.last()),
    ensures
        trimmed(a + s + b) == s,
{
    let whole = a + s + b;
    let from = a.len() as int;
    let to = from + s.len() as int;
    assert forall|i: int| 0 <= i < from implies is_white_space(whole[i]) by {
        assert(whole[i] == a[i]);
    }
    assert forall|i: int| to <= i < whole.len() implies is_white_space(whole[i]) by {
        assert(whole[i] == b[i - to]);
    }
    if s.len() > 0 {
        assert(whole[from] == s[0]);
        assert(whole[to - 1] == s.last());
    }
    lemma_trimmed_is(whole, from, to);
    assert(whole.subrange(from, to) =~= s);
}

/// A text loses a prefix exactly where it is that prefix with something behind it, and keeps that.
pub proof fn law_stripped(s: Seq<char>, prefix: Seq<char>, rest: Seq<char>)
    ensures
        stripped(s, prefix) == Some(rest) <==> s == prefix + rest,
{
    if s == prefix + rest {
        assert(s.subrange(0, prefix.len() as int) =~= prefix);
        assert(s.skip(prefix.len() as int) =~= rest);
    }
    if stripped(s, prefix) == Some(rest) {
        assert(s =~= prefix + rest);
    }
}

/// A text in which `from` does not occur is left alone.
pub proof fn law_replaced_nothing(s: Seq<char>, from: Seq<char>, to: Seq<char>)
    requires
        from.len() > 0,
        forall|i: int| 0 <= i <= s.len() ==> !from.is_prefix_of(#[trigger] s.skip(i)),
    ensures
        replaced(s, from, to) == s,
    decreases s.len(),
{
    if s.len() > 0 {
        assert(s.skip(0) =~= s);
        let rest = s.skip(1);
        assert forall|i: int| 0 <= i <= rest.len() implies !from.is_prefix_of(
            #[trigger] rest.skip(i),
        ) by {
            assert(rest.skip(i) =~= s.skip(i + 1));
        }
        law_replaced_nothing(rest, from, to);
        assert(seq![s[0]] + rest =~= s);
    }
}

/// The first occurrence of `from` gives way to `to`; what stands before it is kept, and what
/// stands behind it is treated in the same way.
pub proof fn law_replaced_first(a: Seq<char>, b: Seq<char>, from: Seq<char>, to: Seq<char>)
    requires
        from.len() > 0,
        forall|i: int|
            0 <= i < a.len() ==> !from.is_prefix_of(#[trigger] (a + from + b).skip(i)),
    ensures
        replaced(a + from + b, from, to) == a + to + replaced(b, from, to),
    decreases a.len(),
{
    let s = a + from + b;
    let n = from.len() as int;
    if a.len() == 0 {
        assert(s.subrange(0, n) =~= from);
        assert(s.skip(n) =~= b);
        assert(a + to + replaced(b, from, to) =~= to + replaced(b, from, to));
    } else {
        assert(s.skip(0) =~= s);
        let shorter = a.skip(1);
        let rest = shorter + from + b;
        assert(s.skip(1) =~= rest);
        assert forall|i: int| 0 <= i < shorter.len() implies !from.is_prefix_of(
            #[trigger] rest.skip(i),
        ) by {
            assert(rest.skip(i) =~= s.skip(i + 1));
        }
        law_replaced_first(shorter, b, from, to);
        assert(seq![s[0]] + (shorter + to + replaced(b, from, to)) =~= a + to + replaced(
            b,
            from,
            to,
        ));
    }
}

/// The number that a sequence of decimal digits stands for.
pub open spec fn number(digits: Seq<char>) -> int
    decreases digits.len(),
{
    if digits.len() == 0 {
        0
    } else {
        10 * number(digits.drop_last()) + (digits.last() as int - '0' as int)
    }
}

/// A number is written with digits that stand for it, and with no zero in front.
pub proof fn law_decimal(n: nat)
    ensures
        number(decimal(n)) == n,
        decimal(n).len() > 0,
        forall|i: int| 0 <= i < decimal(n).len() ==> '0' <= #[trigger] decimal(n)[i] <= '9',
        decimal(n).len() > 1 ==> decimal(n)[0] != '0',
    decreases n,
{
    if n < 10 {
        assert(decimal(n).drop_last() =~= Seq::<char>::empty());
        assert(number(decimal(n).drop_last()) == 0);
    } else {
        law_decimal(n / 10);
        assert(decimal(n).drop_last() =~= decimal(n / 10));
        if n / 10 < 10 {
            assert(decimal(n / 10).len() == 1);
            assert(decimal(n)[0] == decimal(n / 10)[0]);
        } else {
            assert(decimal(n)[0] == decimal(n / 10)[0]);
            assert(decimal(n / 10).len() > 1) by {
                law_decimal(n / 100);
                assert(n / 10 / 10 == n / 100);
            }
        }
    }
}

/// The name in a host is what stands between the white space in front of the first colon, in
/// lower case, whether or not a port follows.
pub proof fn law_name_of_host(a: Seq<char>, name: Seq<char>, b: Seq<char>, port: Seq<char>)
    requires
        forall|i: int| 0 <= i < a.len() ==> is_white_space(a[i]),
        forall|i: int| 0 <= i < b.len() ==> is_white_space(b[i]),
        forall|i: int| 0 <= i < name.len() ==> name[i] != ':',
        name.len() > 0 ==> !is_white_space(name[0]) && !is_white_space(name.last()),
    ensures
        configured(a + name + b) == configured(a + name + b + seq![':'] + port),
        configured(a + name + b).len() == name.len(),
        forall|i: int|
            0 <= i < name.len() ==> if 'A' <= name[i] <= 'Z' {
                (#[trigger] configured(a + name + b)[i]) as int == name[i] as int + 32
            } else {
                configured(a + name + b)[i] == name[i]
            },
{
    let front = a + name + b;
    assert forall|i: int| 0 <= i < front.len() implies front[i] != ':' by {
        if i < a.len() {
            assert(front[i] == a[i]);
        } else if i < a.len() + name.len() {
            assert(front[i] == name[i - a.len()]);
        } else {
            assert(front[i] == b[i - a.len() - name.len()]);
        }
    }
    law_before(front, ':', port);
    law_trimmed(a, name, b);
    law_lowercase(name);
}

/// An optional host that holds nothing but white space counts as none; any other has the name
/// that a host has.
pub proof fn law_optional_host(host: Seq<char>)
    ensures
        configured_option(None) is None,
        (forall|i: int| 0 <= i < host.len() ==> is_white_space(host[i])) ==> configured_option(
            Some(host),
        ) is None,
        (exists|i: int| 0 <= i < host.len() && !is_white_space(host[i])) ==> configured_option(
            Some(host),
        ) == Some(configured(host)),
{
    let none = Seq::<char>::empty();
    if forall|i: int| 0 <= i < host.len() ==> is_white_space(host[i]) {
        law_trimmed(host, none, none);
        assert(host + none + none =~= host);
    } else {
        law_white_space_is_ignored(host);
        let (a, b) = lemma_trimmed(host);
        let i = choose|i: int| 0 <= i < host.len() && !is_white_space(host[i]);
        assert(a <= i < b);
    }
}

} // verus!
