//! Game versions as the wiki writes them (`major.minor`).
use vstd::prelude::*;

use crate::text::{
    all_digits, chars_of, digits_value, is_digit, is_ws, lemma_find_unique, message, occurs_at,
    parse_u8, split_first, split_once, string_of, trim, trimmed, trimmed_end, trimmed_start,
    u8_of_text,
};

verus! {

/// A game version: a major and a minor number.
#[derive(Debug, Clone, Copy, Hash, PartialEq, Eq)]
pub struct Version {
    major: u8,
    minor: u8,
}

impl View for Version {
    type V = (u8, u8);

    closed spec fn view(&self) -> (u8, u8) {
        (self.major, self.minor)
    }
}

/// The message of a rejected version text.
pub open spec fn invalid_version(s: Seq<char>) -> Seq<char> {
    "Invalid version: "@ + s
}

/// What `Version::parse` reads from a text: the empty text is `0.00`;
/// otherwise the text must hold a `.` with an unsigned byte (surrounding
/// whitespace allowed) on each side of the first one.
pub open spec fn version_of_text(s: Seq<char>) -> Result<(u8, u8), Seq<char>> {
    if s.len() == 0 {
        Ok((0u8, 0u8))
    } else {
        match split_first(s, seq!['.']) {
            None => Err(invalid_version(s)),
            Some((a, b)) => match (u8_of_text(trimmed(a)), u8_of_text(trimmed(b))) {
                (Some(x), Some(y)) => Ok((x, y)),
                _ => Err(invalid_version(s)),
            },
        }
    }
}

/// What `Version::from_wiki_icon` reads from an icon template
/// such as `{{GVI|arma3|2.06|size= 0.75}}`: the game and the version.
pub open spec fn icon_of_text(s: Seq<char>) -> Result<(Seq<char>, (u8, u8)), Seq<char>> {
    match split_first(s, "{{GVI|"@) {
        None => Err(invalid_version(s)),
        Some((_, s1)) => match split_first(s1, seq!['|']) {
            None => Err(invalid_version(s1)),
            Some((game, s2)) => match split_first(s2, seq!['|']) {
                None => Err(invalid_version(s2)),
                Some((v, _)) => match version_of_text(v) {
                    Ok(ver) => Ok((game, ver)),
                    Err(e) => Err(e),
                },
            },
        },
    }
}

/// Decimal digits of a number, without leading zeros.
pub open spec fn decimal(n: nat) -> Seq<char>
    decreases n,
{
    if n < 10 {
        seq![(n + '0' as nat) as char]
    } else {
        decimal(n / 10) + seq![((n % 10) + '0' as nat) as char]
    }
}

/// `major.minor`, the minor number written with at least two digits.
pub open spec fn version_text(v: (u8, u8)) -> Seq<char> {
    decimal(v.0 as nat) + seq!['.'] + if v.1 < 10 {
        seq!['0'] + decimal(v.1 as nat)
    } else {
        decimal(v.1 as nat)
    }
}

fn digit(n: u8) -> (c: char)
    requires
        n < 10,
    ensures
        c == (n + '0' as nat) as char,
{
    (n + 48) as char
}

/// Appends the decimal digits of `n`.
fn push_decimal(out: &mut Vec<char>, n: u8)
    ensures
        final(out)@ == old(out)@ + decimal(n as nat),
{
    if n >= 100 {
        out.push(digit(n / 100));
        out.push(digit((n / 10) % 10));
        out.push(digit(n % 10));
        assert(decimal((n / 100) as nat) == seq![((n / 100) + '0' as nat) as char]);
        assert((n / 10) / 10 == n / 100);
        assert(decimal((n / 10) as nat) == decimal((n / 100) as nat) + seq![(((n / 10) % 10) + '0' as nat) as char]);
        assert(decimal(n as nat) == decimal((n / 10) as nat) + seq![((n % 10) + '0' as nat) as char]);
        assert(out@ =~= old(out)@ + decimal(n as nat));
    } else if n >= 10 {
        out.push(digit(n / 10));
        out.push(digit(n % 10));
        assert(decimal((n / 10) as nat) == seq![((n / 10) + '0' as nat) as char]);
        assert(decimal(n as nat) == decimal((n / 10) as nat) + seq![((n % 10) + '0' as nat) as char]);
        assert(out@ =~= old(out)@ + decimal(n as nat));
    } else {
        out.push(digit(n));
        assert(out@ =~= old(out)@ + decimal(n as nat));
    }
}

impl Version {
    pub fn new(major: u8, minor: u8) -> (r: Self)
        ensures
            r@ == (major, minor),
    {
        Self { major, minor }
    }

    /// Parses a version string from the wiki.
    pub fn parse(source: &str) -> (r: Result<Self, String>)
        ensures
            match r {
                Ok(v) => version_of_text(source@) == Ok::<(u8, u8), Seq<char>>(v@),
                Err(e) => version_of_text(source@) == Err::<(u8, u8), Seq<char>>(e@),
            },
    {
        let s = chars_of(source);
        Self::parse_chars(&s)
    }

    /// `Version::parse` on characters.
    pub fn parse_chars(s: &[char]) -> (r: Result<Self, String>)
        ensures
            match r {
                Ok(v) => version_of_text(s@) == Ok::<(u8, u8), Seq<char>>(v@),
                Err(e) => version_of_text(s@) == Err::<(u8, u8), Seq<char>>(e@),
            },
    {
        if s.len() == 0 {
            return Ok(Self::new(0, 0));
        }
        let dot = ['.'];
        let Some((a, b)) = split_once(s, dot.as_slice()) else {
            assert(dot@ =~= seq!['.']);
            return Err(message("Invalid version: ", s));
        };
        assert(dot@ =~= seq!['.']);
        let major = parse_u8(&trim(&a));
        let minor = parse_u8(&trim(&b));
        match (major, minor) {
            (Some(x), Some(y)) => Ok(Self::new(x, y)),
            _ => Err(message("Invalid version: ", s)),
        }
    }

    /// Parses a version string from the icon.
    pub fn from_wiki_icon(source: &str) -> (r: Result<(String, Self), String>)
        ensures
            match r {
                Ok((g, v)) => icon_of_text(source@) == Ok::<(Seq<char>, (u8, u8)), Seq<char>>(
                    (g@, v@),
                ),
                Err(e) => icon_of_text(source@) == Err::<(Seq<char>, (u8, u8)), Seq<char>>(e@),
            },
    {
        let s = chars_of(source);
        Self::icon_from_chars(&s)
    }

    /// `Version::from_wiki_icon` on characters.
    pub fn icon_from_chars(s: &[char]) -> (r: Result<(String, Self), String>)
        ensures
            match r {
                Ok((g, v)) => icon_of_text(s@) == Ok::<(Seq<char>, (u8, u8)), Seq<char>>(
                    (g@, v@),
                ),
                Err(e) => icon_of_text(s@) == Err::<(Seq<char>, (u8, u8)), Seq<char>>(e@),
            },
    {
        let gvi = chars_of("{{GVI|");
        let bar = ['|'];
        assert(bar@ =~= seq!['|']);
        let Some((_, s1)) = split_once(s, &gvi) else {
            return Err(message("Invalid version: ", s));
        };
        let Some((game, s2)) = split_once(&s1, bar.as_slice()) else {
            return Err(message("Invalid version: ", &s1));
        };
        let Some((version, _)) = split_once(&s2, bar.as_slice()) else {
            return Err(message("Invalid version: ", &s2));
        };
        let v = Self::parse_chars(&version)?;
        Ok((string_of(&game), v))
    }

    pub fn major(&self) -> (r: u8)
        ensures
            r == self@.0,
    {
        self.major
    }

    pub fn minor(&self) -> (r: u8)
        ensures
            r == self@.1,
    {
        self.minor
    }

    /// The version as the wiki shows it, such as `1.00` or `2.16`.
    pub fn to_display_string(&self) -> (r: String)
        ensures
            r@ == version_text(self@),
    {
        let mut out: Vec<char> = Vec::new();
        push_decimal(&mut out, self.major);
        out.push('.');
        if self.minor < 10 {
            out.push('0');
        }
        push_decimal(&mut out, self.minor);
        assert(out@ =~= version_text(self@));
        string_of(&out)
    }
}


// ----- reading back a written version -----

proof fn lemma_decimal(n: nat)
    ensures
        decimal(n).len() >= 1,
        all_digits(decimal(n)),
        digits_value(decimal(n)) == n,
    decreases n,
{
    if n < 10 {
        let c = (n + '0' as nat) as char;
        assert(c as int == n + '0' as int);
        assert(decimal(n) =~= seq![c]);
        assert(decimal(n).drop_last() =~= Seq::<char>::empty());
        assert(digits_value(decimal(n)) == digits_value(Seq::<char>::empty()) * 10 + ((c as int - '0' as int) as nat));
        assert(digits_value(decimal(n)) == n);
    }
    if n >= 10 {
        lemma_decimal(n / 10);
        let d = decimal(n);
        let c = ((n % 10) + '0' as nat) as char;
        assert(c as int == (n % 10) + '0' as int);
        assert(d.last() == c);
        assert(d.drop_last() =~= decimal(n / 10));
        assert(n == (n / 10) * 10 + n % 10);
        assert(digits_value(d) == digits_value(decimal(n / 10)) * 10 + ((c as int - '0' as int) as nat));
        assert(digits_value(d) == n);
        assert forall|i: int| 0 <= i < d.len() implies is_digit(#[trigger] d[i]) by {
            if i < d.len() - 1 {
                assert(d[i] == decimal(n / 10)[i]);
            }
        }
    }
}

proof fn lemma_leading_zero(d: Seq<char>)
    ensures
        digits_value(seq!['0'] + d) == digits_value(d),
    decreases d.len(),
{
    if d.len() > 0 {
        lemma_leading_zero(d.drop_last());
        assert((seq!['0'] + d).drop_last() =~= seq!['0'] + d.drop_last());
    } else {
        assert((seq!['0'] + d).drop_last() =~= d);
    }
}

proof fn lemma_digits_trimmed(d: Seq<char>)
    requires
        all_digits(d),
    ensures
        trimmed(d) == d,
{
    if d.len() > 0 {
        assert(!is_ws(d[0]));
        assert(!is_ws(d.last()));
    }
    assert(trimmed_start(d) == d);
}

proof fn lemma_digits_u8(d: Seq<char>, v: u8)
    requires
        d.len() >= 1,
        all_digits(d),
        digits_value(d) == v,
    ensures
        u8_of_text(trimmed(d)) == Some(v),
{
    lemma_digits_trimmed(d);
    assert(d[0] != '+');
}

/// Two versions are equal exactly when their numbers are.
pub proof fn lemma_version_view(a: Version, b: Version)
    ensures
        a@ == b@ <==> a == b,
{
}

/// Reading back a written version gives the version: the major number, a dot,
/// and the minor number with at least two digits.
pub proof fn lemma_version_round_trip(v: (u8, u8))
    ensures
        version_of_text(version_text(v)) == Ok::<(u8, u8), Seq<char>>(v),
{
    let a = decimal(v.0 as nat);
    let b = decimal(v.1 as nat);
    lemma_decimal(v.0 as nat);
    lemma_decimal(v.1 as nat);
    let m = if v.1 < 10 {
        seq!['0'] + b
    } else {
        b
    };
    if v.1 < 10 {
        lemma_leading_zero(b);
        assert forall|i: int| 0 <= i < m.len() implies is_digit(#[trigger] m[i]) by {
            if i > 0 {
                assert(m[i] == b[i - 1]);
            }
        }
    }
    let s = version_text(v);
    assert(s =~= a + seq!['.'] + m);
    let k = a.len() as int;
    assert(occurs_at(s, seq!['.'], k)) by {
        assert(s.subrange(k, k + 1) =~= seq!['.']);
    }
    assert forall|j: int| 0 <= j < k implies !#[trigger] occurs_at(s, seq!['.'], j) by {
        assert(s.subrange(j, j + 1)[0] == a[j]);
    }
    lemma_find_unique(s, seq!['.'], k);
    assert(s.take(k) =~= a);
    assert(s.skip(k + 1) =~= m);
    lemma_digits_u8(a, v.0);
    lemma_digits_u8(m, v.1);
}

} // verus!
