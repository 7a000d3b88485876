//! Reading types from the wiki's descriptions of parameters and return values.
use vstd::prelude::*;
use vstd::string::StrSliceExecFns;

use crate::since::{unknown_since_key, Since, SinceView};
use crate::text::{
    all_digits, capped_digits, digits_value, chars_of, concat, contains, ends, eq, find_at, find_from, find_in, holds, is_whitespace, is_ws,
    lemma_find, lemma_find_from, lemma_trimmed_start_index, lower, lowercase_of, message,
    slice_copy, slice_of, split_first, split_once, starts, starts_with, string_of, trim,
    trim_end, trim_end_matches, trim_range, trim_start_matches, trimmed, trimmed_end,
    trimmed_end_matches, trimmed_start, trimmed_start_matches, without_prefix, strip_prefix,
    replaced, replace, ends_with,
};
use crate::value::{one_of_model, opt_since, Kind, OneOfModel, OneOfValue, Value, ValueModel};
use crate::version::{icon_of_text, Version};

verus! {

broadcast use vstd::slice::group_slice_axioms;

/// The message of a parse that nests too deeply.
pub open spec fn depth_exceeded() -> Seq<char> {
    "Exceeded maximum recursion depth while parsing Value"@
}

/// The view of a parse result that may find no type.
pub open spec fn maybe_value(r: Result<Option<Value>, String>) -> Result<Option<ValueModel>, Seq<char>> {
    match r {
        Ok(Some(v)) => Ok(Some(v@)),
        Ok(None) => Ok(None),
        Err(e) => Err(e@),
    }
}

/// The type that a lowercase wiki type name stands for.
pub open spec fn kind_of_name(t: Seq<char>) -> Option<Kind> {
    if t == "array|empty array"@ {
        Some(Kind::ArrayEmpty)
    } else if t == "anything"@ {
        Some(Kind::Anything)
    } else if t == "boolean"@ {
        Some(Kind::Boolean)
    } else if t == "code"@ {
        Some(Kind::Code)
    } else if t == "config"@ {
        Some(Kind::Config)
    } else if t == "control"@ {
        Some(Kind::Control)
    } else if t == "diary record"@ || t == "diaryrecord"@ {
        Some(Kind::DiaryRecord)
    } else if t == "display"@ {
        Some(Kind::Display)
    } else if t == "array of eden entities"@ {
        Some(Kind::ArrayEdenEntities)
    } else if t == "eden entity"@ || t == "edenentity"@ {
        Some(Kind::EdenEntity)
    } else if t == "eden id"@ || t == "edenid"@ {
        Some(Kind::EdenID)
    } else if t == "exception handling"@ || t == "exception handle"@ || t == "exceptionhandle"@ {
        Some(Kind::ExceptionHandle)
    } else if t == "for type"@ || t == "fortype"@ {
        Some(Kind::ForType)
    } else if t == "group"@ {
        Some(Kind::Group)
    } else if t == "hashmap"@ {
        Some(Kind::HashMapUnknown)
    } else if t == "hashmapkey"@ || t == "hashmap key"@ {
        Some(Kind::HashMapKey)
    } else if t == "if type"@ || t == "iftype"@ {
        Some(Kind::IfType)
    } else if t == "location"@ {
        Some(Kind::Location)
    } else if t == "namespace"@ {
        Some(Kind::Namespace)
    } else if t == "nothing"@ {
        Some(Kind::Nothing)
    } else if t == "number"@ {
        Some(Kind::Number)
    } else if t == "object"@ {
        Some(Kind::Object)
    } else if t == "script handle"@ || t == "scripthandle"@ {
        Some(Kind::ScriptHandle)
    } else if t == "side"@ {
        Some(Kind::Side)
    } else if t == "string"@ {
        Some(Kind::String)
    } else if t == "structured text"@ || t == "structuredtext"@ {
        Some(Kind::StructuredText)
    } else if t == "switch type"@ || t == "switchtype"@ {
        Some(Kind::SwitchType)
    } else if t == "task"@ {
        Some(Kind::Task)
    } else if t == "team member"@ || t == "teammember"@ {
        Some(Kind::TeamMember)
    } else if t == "path"@ || t == "tree view path"@ {
        Some(Kind::TreeViewPath)
    } else if t == "date"@ {
        Some(Kind::ArrayDate)
    } else if t == "color|color (rgb)"@ || t == "color rgb"@ || t == "colorrgb"@ {
        Some(Kind::ArrayColorRgb)
    } else if t == "color|color (rgba)"@ || t == "color rgba"@ || t == "colorrgba"@ {
        Some(Kind::ArrayColorRgba)
    } else if t == "color"@ {
        Some(Kind::ArrayColor)
    } else if t == "turret path"@ || t == "turretpath"@ {
        Some(Kind::TurretPath)
    } else if t == "unitloadoutarray"@ {
        Some(Kind::UnitLoadoutArray)
    } else if t == "position"@ {
        Some(Kind::Position)
    } else if t == "position#introduction|position2d"@ || t == "position#position2d"@ || t == "position2d"@ {
        Some(Kind::Position2d)
    } else if t == "position#introduction|position3d"@ || t == "position#position3d"@ || t == "position3d"@ {
        Some(Kind::Position3d)
    } else if t == "position#positionasl"@ || t == "positionasl"@ {
        Some(Kind::Position3dASL)
    } else if t == "position#positionaslw"@ || t == "positionaslw"@ {
        Some(Kind::Position3dASLW)
    } else if t == "positionworld"@ {
        Some(Kind::Position3dWorld)
    } else if t == "position#positionatl"@ || t == "positionatl"@ {
        Some(Kind::Position3dATL)
    } else if t == "position#positionagl"@ || t == "positionagl"@ {
        Some(Kind::Position3dAGL)
    } else if t == "position#positionagls"@ || t == "positionagls"@ {
        Some(Kind::Position3dAGLS)
    } else if t == "position#positionrelative"@ || t == "positionrelative"@ {
        Some(Kind::Position3dRelative)
    } else if t == "vector"@ {
        Some(Kind::Vector)
    } else if t == "vector2d"@ {
        Some(Kind::Vector2d)
    } else if t == "vector3d"@ {
        Some(Kind::Vector3d)
    } else if t == "waypoint"@ {
        Some(Kind::Waypoint)
    } else if t == "while type"@ || t == "whiletype"@ {
        Some(Kind::WhileType)
    } else if t == "with type"@ || t == "withtype"@ {
        Some(Kind::WithType)
    } else if t == "particlearray"@ || t == "particle array"@ {
        Some(Kind::ParticleArray)
    } else {
        None
    }
}

/// The type that a lowercase wiki type name stands for.
pub fn kind_of(t: &[char]) -> (r: Option<Kind>)
    ensures
        r == kind_of_name(t@),
{
    if eq(t, &chars_of("array|empty array")) {
        return Some(Kind::ArrayEmpty);
    }
    if eq(t, &chars_of("anything")) {
        return Some(Kind::Anything);
    }
    if eq(t, &chars_of("boolean")) {
        return Some(Kind::Boolean);
    }
    if eq(t, &chars_of("code")) {
        return Some(Kind::Code);
    }
    if eq(t, &chars_of("config")) {
        return Some(Kind::Config);
    }
    if eq(t, &chars_of("control")) {
        return Some(Kind::Control);
    }
    if eq(t, &chars_of("diary record")) || eq(t, &chars_of("diaryrecord")) {
        return Some(Kind::DiaryRecord);
    }
    if eq(t, &chars_of("display")) {
        return Some(Kind::Display);
    }
    if eq(t, &chars_of("array of eden entities")) {
        return Some(Kind::ArrayEdenEntities);
    }
    if eq(t, &chars_of("eden entity")) || eq(t, &chars_of("edenentity")) {
        return Some(Kind::EdenEntity);
    }
    if eq(t, &chars_of("eden id")) || eq(t, &chars_of("edenid")) {
        return Some(Kind::EdenID);
    }
    if eq(t, &chars_of("exception handling")) || eq(t, &chars_of("exception handle")) || eq(t, &chars_of("exceptionhandle")) {
        return Some(Kind::ExceptionHandle);
    }
    if eq(t, &chars_of("for type")) || eq(t, &chars_of("fortype")) {
        return Some(Kind::ForType);
    }
    if eq(t, &chars_of("group")) {
        return Some(Kind::Group);
    }
    if eq(t, &chars_of("hashmap")) {
        return Some(Kind::HashMapUnknown);
    }
    if eq(t, &chars_of("hashmapkey")) || eq(t, &chars_of("hashmap key")) {
        return Some(Kind::HashMapKey);
    }
    if eq(t, &chars_of("if type")) || eq(t, &chars_of("iftype")) {
        return Some(Kind::IfType);
    }
    if eq(t, &chars_of("location")) {
        return Some(Kind::Location);
    }
    if eq(t, &chars_of("namespace")) {
        return Some(Kind::Namespace);
    }
    if eq(t, &chars_of("nothing")) {
        return Some(Kind::Nothing);
    }
    if eq(t, &chars_of("number")) {
        return Some(Kind::Number);
    }
    if eq(t, &chars_of("object")) {
        return Some(Kind::Object);
    }
    if eq(t, &chars_of("script handle")) || eq(t, &chars_of("scripthandle")) {
        return Some(Kind::ScriptHandle);
    }
    if eq(t, &chars_of("side")) {
        return Some(Kind::Side);
    }
    if eq(t, &chars_of("string")) {
        return Some(Kind::String);
    }
    if eq(t, &chars_of("structured text")) || eq(t, &chars_of("structuredtext")) {
        return Some(Kind::StructuredText);
    }
    if eq(t, &chars_of("switch type")) || eq(t, &chars_of("switchtype")) {
        return Some(Kind::SwitchType);
    }
    if eq(t, &chars_of("task")) {
        return Some(Kind::Task);
    }
    if eq(t, &chars_of("team member")) || eq(t, &chars_of("teammember")) {
        return Some(Kind::TeamMember);
    }
    if eq(t, &chars_of("path")) || eq(t, &chars_of("tree view path")) {
        return Some(Kind::TreeViewPath);
    }
    if eq(t, &chars_of("date")) {
        return Some(Kind::ArrayDate);
    }
    if eq(t, &chars_of("color|color (rgb)")) || eq(t, &chars_of("color rgb")) || eq(t, &chars_of("colorrgb")) {
        return Some(Kind::ArrayColorRgb);
    }
    if eq(t, &chars_of("color|color (rgba)")) || eq(t, &chars_of("color rgba")) || eq(t, &chars_of("colorrgba")) {
        return Some(Kind::ArrayColorRgba);
    }
    if eq(t, &chars_of("color")) {
        return Some(Kind::ArrayColor);
    }
    if eq(t, &chars_of("turret path")) || eq(t, &chars_of("turretpath")) {
        return Some(Kind::TurretPath);
    }
    if eq(t, &chars_of("unitloadoutarray")) {
        return Some(Kind::UnitLoadoutArray);
    }
    if eq(t, &chars_of("position")) {
        return Some(Kind::Position);
    }
    if eq(t, &chars_of("position#introduction|position2d")) || eq(t, &chars_of("position#position2d")) || eq(t, &chars_of("position2d")) {
        return Some(Kind::Position2d);
    }
    if eq(t, &chars_of("position#introduction|position3d")) || eq(t, &chars_of("position#position3d")) || eq(t, &chars_of("position3d")) {
        return Some(Kind::Position3d);
    }
    if eq(t, &chars_of("position#positionasl")) || eq(t, &chars_of("positionasl")) {
        return Some(Kind::Position3dASL);
    }
    if eq(t, &chars_of("position#positionaslw")) || eq(t, &chars_of("positionaslw")) {
        return Some(Kind::Position3dASLW);
    }
    if eq(t, &chars_of("positionworld")) {
        return Some(Kind::Position3dWorld);
    }
    if eq(t, &chars_of("position#positionatl")) || eq(t, &chars_of("positionatl")) {
        return Some(Kind::Position3dATL);
    }
    if eq(t, &chars_of("position#positionagl")) || eq(t, &chars_of("positionagl")) {
        return Some(Kind::Position3dAGL);
    }
    if eq(t, &chars_of("position#positionagls")) || eq(t, &chars_of("positionagls")) {
        return Some(Kind::Position3dAGLS);
    }
    if eq(t, &chars_of("position#positionrelative")) || eq(t, &chars_of("positionrelative")) {
        return Some(Kind::Position3dRelative);
    }
    if eq(t, &chars_of("vector")) {
        return Some(Kind::Vector);
    }
    if eq(t, &chars_of("vector2d")) {
        return Some(Kind::Vector2d);
    }
    if eq(t, &chars_of("vector3d")) {
        return Some(Kind::Vector3d);
    }
    if eq(t, &chars_of("waypoint")) {
        return Some(Kind::Waypoint);
    }
    if eq(t, &chars_of("while type")) || eq(t, &chars_of("whiletype")) {
        return Some(Kind::WhileType);
    }
    if eq(t, &chars_of("with type")) || eq(t, &chars_of("withtype")) {
        return Some(Kind::WithType);
    }
    if eq(t, &chars_of("particlearray")) || eq(t, &chars_of("particle array")) {
        return Some(Kind::ParticleArray);
    }
    None
}

// ----- simple types -----

/// The name inside `[[...]]`, lowercased.
pub open spec fn simple_name(s: Seq<char>) -> Seq<char> {
    lowercase_of(trimmed_end_matches(trimmed_start_matches(trimmed(s), seq!['[', '[']), seq![']', ']']))
}

/// What `try_simple_type` reads: a type by its name; for a name with a `|`
/// and no brackets, the part before it (read again, `fuel` times at most);
/// an error for an unknown single word; no type otherwise.
pub open spec fn simple_type_of(s: Seq<char>, fuel: nat) -> Result<Option<ValueModel>, Seq<char>>
    decreases fuel,
{
    let t = simple_name(s);
    match kind_of_name(t) {
        Some(k) => Ok(Some(ValueModel::Plain(k))),
        None => if !holds(t, seq!['[', '[']) && !holds(t, seq![']', ']']) && holds(t, seq!['|']) {
            if fuel == 0 {
                Err(depth_exceeded())
            } else {
                match split_first(t, seq!['|']) {
                    Some((v, _)) => simple_type_of(trimmed(v), (fuel - 1) as nat),
                    None => Ok(None),
                }
            }
        } else if !holds(trimmed(t), seq![' ']) {
            Err("Unknown simple type: "@ + trimmed(t))
        } else {
            Ok(None)
        },
    }
}

fn simple_type(s: &[char], fuel: usize) -> (r: Result<Option<Value>, String>)
    ensures
        maybe_value(r) == simple_type_of(s@, fuel as nat),
    decreases fuel,
{
    let open = ['[', '['];
    let close = [']', ']'];
    let bar = ['|'];
    let space = [' '];
    assert(open@ =~= seq!['[', '[']);
    assert(close@ =~= seq![']', ']']);
    assert(bar@ =~= seq!['|']);
    assert(space@ =~= seq![' ']);
    let t0 = trim(s);
    let t1 = trim_start_matches(&t0, open.as_slice());
    let t2 = trim_end_matches(&t1, close.as_slice());
    let t = lower(&t2);
    match kind_of(&t) {
        Some(k) => Ok(Some(Value::from_kind(k))),
        None => {
            if !contains(&t, open.as_slice()) && !contains(&t, close.as_slice()) && contains(
                &t,
                bar.as_slice(),
            ) {
                if fuel == 0 {
                    return Err(string_of(&chars_of("Exceeded maximum recursion depth while parsing Value")));
                }
                match split_once(&t, bar.as_slice()) {
                    Some((v, _)) => simple_type(&trim(&v), fuel - 1),
                    None => Ok(None),
                }
            } else {
                let tt = trim(&t);
                if !contains(&tt, space.as_slice()) {
                    Err(message("Unknown simple type: ", &tt))
                } else {
                    Ok(None)
                }
            }
        },
    }
}

/// Reads a type from its wiki name, such as `[[Number]]`. A name holding a
/// `|` and no brackets is read by its part before the `|`, once.
pub fn try_simple_type(source: &str) -> (r: Result<Option<Value>, String>)
    ensures
        maybe_value(r) == simple_type_of(source@, 1),
{
    let s = chars_of(source);
    simple_type(&s, 1)
}

// ----- number ranges -----

/// A decimal number text: an optional sign, then digits with at most one
/// `.` among them, and at least one digit. Gives the sign, the digits before
/// the point and the digits after it.
pub open spec fn decimal_of_text(s: Seq<char>) -> Option<(bool, Seq<char>, Seq<char>)> {
    let neg = s.len() > 0 && s[0] == '-';
    let body = if s.len() > 0 && (s[0] == '-' || s[0] == '+') {
        s.drop_first()
    } else {
        s
    };
    match split_first(body, seq!['.']) {
        None => if body.len() > 0 && all_digits(body) {
            Some((neg, body, Seq::empty()))
        } else {
            None
        },
        Some((a, b)) => if all_digits(a) && all_digits(b) && a.len() + b.len() > 0 {
            Some((neg, a, b))
        } else {
            None
        },
    }
}

/// Every digit is `0`.
pub open spec fn all_zero(d: Seq<char>) -> bool {
    forall|i: int| 0 <= i < d.len() ==> #[trigger] d[i] == '0'
}

/// The nearest `i32` to an integer.
pub open spec fn saturate(x: int) -> i32 {
    if x < i32::MIN {
        i32::MIN
    } else if x > i32::MAX {
        i32::MAX
    } else {
        x as i32
    }
}

/// The message for a bound that is not a number.
pub open spec fn not_a_number(s: Seq<char>) -> Seq<char> {
    if s.len() == 0 {
        "cannot parse float from empty string"@
    } else {
        "invalid float literal"@
    }
}

/// A decimal bound rounded down, or the message for a text that is not one.
pub open spec fn decimal_floor(s: Seq<char>) -> Result<i32, Seq<char>> {
    match decimal_of_text(s) {
        None => Err(not_a_number(s)),
        Some((neg, a, b)) => {
            let i = digits_value(a) as int;
            Ok(saturate(if neg { if all_zero(b) { -i } else { -i - 1 } } else { i }))
        },
    }
}

/// A decimal bound rounded up, or the message for a text that is not one.
pub open spec fn decimal_ceil(s: Seq<char>) -> Result<i32, Seq<char>> {
    match decimal_of_text(s) {
        None => Err(not_a_number(s)),
        Some((neg, a, b)) => {
            let i = digits_value(a) as int;
            Ok(saturate(if neg { -i } else { if all_zero(b) { i } else { i + 1 } }))
        },
    }
}

fn zeros_only(d: &[char]) -> (r: bool)
    ensures
        r == all_zero(d@),
{
    let mut i: usize = 0;
    while i < d.len()
        invariant
            i <= d@.len(),
            forall|j: int| 0 <= j < i ==> #[trigger] d@[j] == '0',
        decreases d@.len() - i,
    {
        if d[i] != '0' {
            return false;
        }
        i += 1;
    }
    true
}

/// Digits only, and their value capped at 2^32; `None` when a character is no digit.
fn digits_or_empty(d: &[char]) -> (r: Option<u64>)
    ensures
        match r {
            Some(v) => all_digits(d@) && v == if digits_value(d@) < 0x1_0000_0000 {
                digits_value(d@)
            } else {
                0x1_0000_0000
            },
            None => !all_digits(d@),
        },
{
    if d.len() == 0 {
        return Some(0);
    }
    capped_digits(d)
}

fn saturate_exec(neg: bool, v: u64, extra: bool) -> (r: i32)
    requires
        v <= 0x1_0000_0000,
    ensures
        r == saturate(if neg { -(v as int) - (if extra { 1int } else { 0int }) } else { v as int + (if extra { 1int } else { 0int }) }),
{
    let x: i64 = if neg {
        -(v as i64) - (if extra { 1i64 } else { 0i64 })
    } else {
        v as i64 + (if extra { 1i64 } else { 0i64 })
    };
    if x < i32::MIN as i64 {
        i32::MIN
    } else if x > i32::MAX as i64 {
        i32::MAX
    } else {
        x as i32
    }
}

proof fn lemma_saturate_cap(x: nat, c: int, neg: bool, extra: int)
    requires
        c == if x < 0x1_0000_0000 { x as int } else { 0x1_0000_0000 },
        0 <= extra <= 1,
    ensures
        saturate(if neg { -c - extra } else { c + extra }) == saturate(if neg { -(x as int) - extra } else { x + extra }),
{
}

/// Reads a decimal bound; rounds down when `down`, up otherwise.
fn decimal_bound(s: &[char], down: bool) -> (r: Result<i32, String>)
    ensures
        match r {
            Ok(v) => (if down { decimal_floor(s@) } else { decimal_ceil(s@) }) == Ok::<i32, Seq<char>>(v),
            Err(e) => (if down { decimal_floor(s@) } else { decimal_ceil(s@) }) == Err::<i32, Seq<char>>(e@),
        },
{
    let neg = s.len() > 0 && s[0] == '-';
    let body = if s.len() > 0 && (s[0] == '-' || s[0] == '+') {
        slice_copy(s, 1, s.len())
    } else {
        slice_copy(s, 0, s.len())
    };
    assert(s@.len() > 0 && (s@[0] == '-' || s@[0] == '+') ==> body@ =~= s@.drop_first());
    assert(!(s@.len() > 0 && (s@[0] == '-' || s@[0] == '+')) ==> body@ =~= s@);
    let dot = ['.'];
    assert(dot@ =~= seq!['.']);
    let parts = match split_once(&body, dot.as_slice()) {
        None => {
            match capped_digits(&body) {
                Some(v) => Some((v, false)),
                None => None,
            }
        },
        Some((a, b)) => {
            match (digits_or_empty(&a), digits_or_empty(&b)) {
                (Some(v), Some(_)) => if a.len() > 0 || b.len() > 0 {
                    Some((v, !zeros_only(&b)))
                } else {
                    None
                },
                _ => None,
            }
        },
    };
    proof {
        if split_first(body@, seq!['.']) is None {
            assert(all_zero(Seq::<char>::empty()));
        }
    }
    match parts {
        None => {
            if s.len() == 0 {
                Err(string_of(&chars_of("cannot parse float from empty string")))
            } else {
                Err(string_of(&chars_of("invalid float literal")))
            }
        },
        Some((v, frac)) => {
            let extra = if down { neg && frac } else { !neg && frac };
            let r = saturate_exec(neg, v, extra);
            proof {
                let (n2, a2, b2) = decimal_of_text(s@)->Some_0;
                lemma_saturate_cap(digits_value(a2), v as int, neg, if extra { 1int } else { 0int });
            }
            Ok(r)
        },
    }
}

/// What `try_number_range` reads: `[[Number]] in range a..b` (any case) gives
/// the range from `a` rounded down to `b` rounded up. The bounds are read as
/// decimal numbers exactly; a bound outside `i32` is clamped.
pub open spec fn number_range_of(s: Seq<char>) -> Result<Option<ValueModel>, Seq<char>> {
    let t = lowercase_of(trimmed(s));
    match without_prefix(t, "[[number]] in range"@) {
        None => Ok(None),
        Some(rest) => match split_first(trimmed(rest), seq!['.', '.']) {
            None => Err("Invalid number range format: '"@ + t + seq!['\'']),
            Some((a, b)) => match decimal_floor(trimmed(a)) {
                Err(e) => Err("Failed to parse start of number range '"@ + trimmed(a) + "': "@ + e),
                Ok(x) => match decimal_ceil(trimmed(b)) {
                    Err(e) => Err("Failed to parse end of number range '"@ + trimmed(b) + "': "@ + e),
                    Ok(y) => Ok(Some(ValueModel::NumberRange(x, y))),
                },
            },
        },
    }
}

/// `prefix + a + middle + b`.
fn message3(prefix: &str, a: &[char], middle: &str, b: &[char]) -> (r: String)
    ensures
        r@ == prefix@ + a@ + middle@ + b@,
{
    let x = concat(&chars_of(prefix), a);
    let y = concat(&x, &chars_of(middle));
    let z = concat(&y, b);
    string_of(&z)
}

fn number_range(s: &[char]) -> (r: Result<Option<Value>, String>)
    ensures
        maybe_value(r) == number_range_of(s@),
{
    let t = lower(&trim(s));
    let Some(rest) = strip_prefix(&t, &chars_of("[[number]] in range")) else {
        return Ok(None);
    };
    let dots = ['.', '.'];
    assert(dots@ =~= seq!['.', '.']);
    let Some((a, b)) = split_once(&trim(&rest), dots.as_slice()) else {
        let q = ['\''];
        let m = concat(&concat(&chars_of("Invalid number range format: '"), &t), q.as_slice());
        assert(m@ =~= "Invalid number range format: '"@ + t@ + seq!['\'']);
        return Err(string_of(&m));
    };
    let ta = trim(&a);
    let tb = trim(&b);
    let x = match decimal_bound(&ta, true) {
        Ok(x) => x,
        Err(e) => {
            return Err(message3("Failed to parse start of number range '", &ta, "': ", &chars_of(e.as_str())));
        },
    };
    let y = match decimal_bound(&tb, false) {
        Ok(y) => y,
        Err(e) => {
            return Err(message3("Failed to parse end of number range '", &tb, "': ", &chars_of(e.as_str())));
        },
    };
    Ok(Some(Value::NumberRange(x, y)))
}

/// Reads `[[Number]] in range a..b`.
pub fn try_number_range(source: &str) -> (r: Result<Option<Value>, String>)
    ensures
        maybe_value(r) == number_range_of(source@),
{
    number_range(&chars_of(source))
}

// ----- version prefixes -----

/// The message of a version template without its closing braces.
pub open spec fn unclosed_template(s: Seq<char>) -> Seq<char> {
    "Unclosed version template: "@ + s
}

/// What `extract_since` reads: a text that starts with a version template
/// (`{{GVI|game|version|...}}`) gives the version for that game and the
/// trimmed text after the template; any other text is returned as it is.
#[verifier::opaque]
pub open spec fn since_prefix_of(s: Seq<char>) -> Result<(Option<SinceView>, Seq<char>), Seq<char>> {
    if !starts(s, "{{GVI|"@) {
        Ok((None, s))
    } else {
        match find_in(s, seq!['}', '}']) {
            None => Err(unclosed_template(s)),
            Some(e) => match icon_of_text(s.take(e + 2)) {
                Err(m) => Err(m),
                Ok((game, v)) => match SinceView::none().with_key(lowercase_of(game), v) {
                    None => Err(unknown_since_key(game)),
                    Some(sv) => Ok((Some(sv), trimmed(s.skip(e + 2)))),
                },
            },
        }
    }
}

/// `extract_since` on characters: the version, and the bounds of the rest.
pub fn since_prefix(s: &[char]) -> (r: Result<(Option<Since>, usize, usize), String>)
    ensures
        match r {
            Ok((o, a, b)) => a <= b <= s@.len() && since_prefix_of(s@) == Ok::<
                (Option<SinceView>, Seq<char>),
                Seq<char>,
            >((opt_since(o), s@.subrange(a as int, b as int))),
            Err(e) => since_prefix_of(s@) == Err::<(Option<SinceView>, Seq<char>), Seq<char>>(e@),
        },
{
    reveal(since_prefix_of);
    if !starts_with(s, &chars_of("{{GVI|")) {
        assert(s@.subrange(0, s@.len() as int) =~= s@);
        return Ok((None, 0, s.len()));
    }
    let close = ['}', '}'];
    assert(close@ =~= seq!['}', '}']);
    let Some(e) = crate::text::find(s, close.as_slice()) else {
        return Err(message("Unclosed version template: ", s));
    };
    proof {
        lemma_find(s@, close@);
    }
    assert(e + 2 <= s@.len());
    assert(e + 2 <= s.len());
    let icon = slice_copy(s, 0, e + 2);
    assert(icon@ =~= s@.take(e + 2));
    let (game, v) = Version::icon_from_chars(&icon)?;
    let mut since = Since::empty();
    let g = chars_of(game.as_str());
    match since.set_version_chars(&g, v) {
        Ok(()) => {},
        Err(m) => {
            return Err(m);
        },
    }
    let (a, b) = trim_range(s, e + 2, s.len());
    assert(s@.subrange(e + 2, s@.len() as int) =~= s@.skip(e + 2));
    Ok((Some(since), a, b))
}

/// Splits a leading version template off a text.
pub fn extract_since(source: &str) -> (r: Result<(Option<Since>, String), String>)
    ensures
        match r {
            Ok((o, rest)) => since_prefix_of(source@) == Ok::<
                (Option<SinceView>, Seq<char>),
                Seq<char>,
            >((opt_since(o), rest@)),
            Err(e) => since_prefix_of(source@) == Err::<(Option<SinceView>, Seq<char>), Seq<char>>(e@),
        },
{
    let s = chars_of(source);
    let (o, a, b) = since_prefix(&s)?;
    let rest = slice_copy(&s, a, b);
    Ok((o, string_of(&rest)))
}

// ----- blocks -----

/// The parts of a list of types such as `[[A]], [[B]] or [[C]]`, found at
/// each `]]` (from `pos` on) that a `,` or an `or ` follows; `cur` is where the
/// current part starts. An `or` after a plural such as `[[Number]]s` does not
/// split.
pub open spec fn block_scan(s: Seq<char>, pos: int, cur: int) -> Seq<Seq<char>>
    decreases s.len() + 1 - pos,
{
    if pos < 0 {
        Seq::empty()
    } else {
        match find_from(s, seq![']', ']'], pos) {
            None => if cur < s.len() {
                seq![trimmed(slice_of(s, cur, s.len() as int))]
            } else {
                Seq::empty()
            },
            Some(i) => {
                proof {
                    lemma_find_from(s, seq![']', ']'], pos);
                }
                let ac = i + 2;
                let rem = s.skip(ac);
                let tr = trimmed_start(rem);
                if tr.len() > 0 && tr[0] == ',' {
                    let ci = ac + (rem.len() - tr.len());
                    let tail = s.skip(ci + 1);
                    let after = trimmed_start(tail);
                    let next = if starts(after, seq!['o', 'r', ' ']) {
                        ci + 1 + (tail.len() - after.len()) + 3
                    } else {
                        ci + 1 + (tail.len() - after.len())
                    };
                    seq![trimmed(slice_of(s, cur, ac))] + block_scan(s, ac, next)
                } else if starts(tr, seq!['o', 'r', ' ']) {
                    let before = trimmed_end(slice_of(s, cur, ac));
                    if ends(before, seq!['s']) || ends(before, seq!['y']) {
                        block_scan(s, ac, cur)
                    } else {
                        seq![trimmed(slice_of(s, cur, ac))] + block_scan(
                            s,
                            ac,
                            ac + (rem.len() - tr.len()) + 3,
                        )
                    }
                } else {
                    block_scan(s, ac, cur)
                }
            },
        }
    }
}

/// A part of a list of types, with a leading version template split off when
/// it reads as one.
pub open spec fn since_split(b: Seq<char>) -> (Seq<char>, Option<SinceView>) {
    match since_prefix_of(b) {
        Ok((o, rest)) => (rest, o),
        Err(_) => (b, None),
    }
}

/// What `try_extract_simple_blocks` reads: the parts of a list of types, each
/// with the version it appeared in.
pub open spec fn blocks_of(s: Seq<char>) -> Seq<(Seq<char>, Option<SinceView>)> {
    block_scan(s, 0, 0).map_values(|b: Seq<char>| since_split(b))
}

/// The first position at or after `i` that is not whitespace.
fn skip_ws(s: &[char], i: usize) -> (j: usize)
    requires
        i <= s@.len(),
    ensures
        i <= j <= s@.len(),
        trimmed_start(s@.skip(i as int)) == s@.skip(j as int),
{
    let mut j = i;
    while j < s.len() && is_whitespace(s[j])
        invariant
            i <= j <= s@.len(),
            forall|k: int| i <= k < j ==> is_ws(#[trigger] s@[k]),
        decreases s@.len() - j,
    {
        j += 1;
    }
    proof {
        let t = s@.skip(i as int);
        assert forall|k: int| 0 <= k < j - i implies is_ws(#[trigger] t[k]) by {
            assert(t[k] == s@[i + k]);
        }
        lemma_trimmed_start_index(t, j - i);
        assert(t.skip(j - i) =~= s@.skip(j as int));
        if j < s@.len() {
            assert(s@.skip(j as int)[0] == s@[j as int]);
        }
    }
    j
}

/// The bounds of `trimmed(slice_of(s, a, b))` within `s`.
fn part_range(s: &[char], a: usize, b: usize) -> (r: (usize, usize))
    requires
        b <= s@.len(),
    ensures
        r.0 <= r.1 <= s@.len(),
        s@.subrange(r.0 as int, r.1 as int) == trimmed(slice_of(s@, a as int, b as int)),
{
    if a <= b {
        trim_range(s, a, b)
    } else {
        assert(trimmed(Seq::<char>::empty()) =~= Seq::<char>::empty()) by {
            reveal_with_fuel(trimmed_start, 1);
            reveal_with_fuel(trimmed_end, 1);
        }
        assert(s@.subrange(b as int, b as int) =~= Seq::<char>::empty());
        (b, b)
    }
}

/// The views of a list of bounds within a text.
pub open spec fn ranges_view(s: Seq<char>, v: Seq<(usize, usize)>) -> Seq<Seq<char>> {
    v.map_values(|r: (usize, usize)| s.subrange(r.0 as int, r.1 as int))
}

/// The bounds of the parts of a list of types.
fn block_ranges(s: &[char]) -> (r: Vec<(usize, usize)>)
    ensures
        forall|k: int| 0 <= k < r@.len() ==> (#[trigger] r@[k]).0 <= r@[k].1 <= s@.len(),
        ranges_view(s@, r@) == block_scan(s@, 0, 0),
{
    let close = [']', ']'];
    let comma = [','];
    let or_ = ['o', 'r', ' '];
    let ess = ['s'];
    let why = ['y'];
    assert(close@ =~= seq![']', ']']);
    assert(comma@ =~= seq![',']);
    assert(or_@ =~= seq!['o', 'r', ' ']);
    assert(ess@ =~= seq!['s']);
    assert(why@ =~= seq!['y']);
    let mut out: Vec<(usize, usize)> = Vec::new();
    let mut pos: usize = 0;
    let mut cur: usize = 0;
    loop
        invariant
            close@ == seq![']', ']'],
            or_@ == seq!['o', 'r', ' '],
            ess@ == seq!['s'],
            why@ == seq!['y'],
            pos <= s@.len(),
            cur <= s@.len(),
            forall|k: int| 0 <= k < out@.len() ==> (#[trigger] out@[k]).0 <= out@[k].1 <= s@.len(),
            block_scan(s@, 0, 0) == ranges_view(s@, out@) + block_scan(s@, pos as int, cur as int),
        decreases s@.len() + 1 - pos,
    {
        let ghost before = out@;
        match find_at(s, close.as_slice(), pos) {
            None => {
                assert(find_from(s@, close@, pos as int) is None);
                if cur < s.len() {
                    let (a, b) = trim_range(s, cur, s.len());
                    assert(slice_of(s@, cur as int, s@.len() as int) == s@.subrange(cur as int, s@.len() as int));
                    assert(block_scan(s@, pos as int, cur as int) == seq![s@.subrange(a as int, b as int)]);
                    out.push((a, b));
                    assert(ranges_view(s@, out@) =~= ranges_view(s@, before).push(
                        s@.subrange(a as int, b as int),
                    ));
                }
                assert(ranges_view(s@, out@) + Seq::<Seq<char>>::empty() =~= ranges_view(s@, out@));
                return out;
            },
            Some(i) => {
                proof {
                    lemma_find_from(s@, close@, pos as int);
                }
                assert(i + 2 <= s.len());
                let ac = i + 2;
                let j = skip_ws(s, ac);
                let ghost rem = s@.skip(ac as int);
                let ghost tr = trimmed_start(rem);
                assert(tr == s@.skip(j as int));
                assert(rem.len() - tr.len() == j - ac);
                assert(find_from(s@, close@, pos as int) == Some(i as int));
                if j < s.len() && s[j] == ',' {
                    let k = skip_ws(s, j + 1);
                    let after = slice_copy(s, k, s.len());
                    assert(after@ =~= s@.skip(k as int));
                    let next = if starts_with(&after, or_.as_slice()) {
                        k + 3
                    } else {
                        k
                    };
                    let (a, b) = part_range(s, cur, ac);
                    proof {
                        let tail = s@.skip(j + 1);
                        assert(trimmed_start(tail) == s@.skip(k as int));
                        assert(tr.len() > 0 && tr[0] == ',');
                        assert(block_scan(s@, pos as int, cur as int) == seq![s@.subrange(a as int, b as int)]
                            + block_scan(s@, ac as int, next as int));
                    }
                    out.push((a, b));
                    assert(ranges_view(s@, out@) =~= ranges_view(s@, before).push(
                        s@.subrange(a as int, b as int),
                    ));
                    assert(ranges_view(s@, before) + (seq![s@.subrange(a as int, b as int)]
                        + block_scan(s@, ac as int, next as int)) =~= ranges_view(s@, out@)
                        + block_scan(s@, ac as int, next as int));
                    pos = ac;
                    cur = next;
                } else {
                    let tr = slice_copy(s, j, s.len());
                    assert(tr@ =~= s@.skip(j as int));
                    if starts_with(&tr, or_.as_slice()) {
                        let pre = if cur <= ac {
                            slice_copy(s, cur, ac)
                        } else {
                            Vec::new()
                        };
                        assert(pre@ =~= slice_of(s@, cur as int, ac as int));
                        let before_close = trim_end(&pre);
                        if ends_with(&before_close, ess.as_slice()) || ends_with(
                            &before_close,
                            why.as_slice(),
                        ) {
                            pos = ac;
                        } else {
                            let (a, b) = part_range(s, cur, ac);
                            out.push((a, b));
                            assert(ranges_view(s@, out@) =~= ranges_view(s@, before).push(
                                s@.subrange(a as int, b as int),
                            ));
                            assert(ranges_view(s@, before) + (seq![s@.subrange(a as int, b as int)]
                                + block_scan(s@, ac as int, (j + 3) as int)) =~= ranges_view(
                                s@,
                                out@,
                            ) + block_scan(s@, ac as int, (j + 3) as int));
                            pos = ac;
                            cur = j + 3;
                        }
                    } else {
                        pos = ac;
                    }
                }
            },
        }
    }
}


/// The parts of a list of types: the bounds of each part's text within `s`,
/// and the version it appeared in.
fn block_parts(s: &[char]) -> (r: Vec<(usize, usize, Option<Since>)>)
    ensures
        r@.len() == blocks_of(s@).len(),
        forall|k: int|
            0 <= k < r@.len() ==> (#[trigger] r@[k]).0 <= r@[k].1 <= s@.len() && blocks_of(s@)[k] == (
                s@.subrange(r@[k].0 as int, r@[k].1 as int),
                opt_since(r@[k].2),
            ),
{
    let ranges = block_ranges(s);
    let ghost bs = block_scan(s@, 0, 0);
    let ghost bl = blocks_of(s@);
    assert(forall|k: int| 0 <= k < ranges@.len() ==> #[trigger] bs[k] == ranges_view(s@, ranges@)[k]);
    assert(bl.len() == bs.len());
    assert(forall|k: int| 0 <= k < bs.len() ==> #[trigger] bl[k] == since_split(bs[k]));
    let mut out: Vec<(usize, usize, Option<Since>)> = Vec::new();
    let mut idx: usize = 0;
    while idx < ranges.len()
        invariant
            idx <= ranges@.len(),
            ranges@.len() == bs.len(),
            bl.len() == bs.len(),
            forall|k: int| 0 <= k < bs.len() ==> #[trigger] bl[k] == since_split(bs[k]),
            forall|k: int| 0 <= k < ranges@.len() ==> #[trigger] bs[k] == s@.subrange(ranges@[k].0 as int, ranges@[k].1 as int),
            forall|k: int| 0 <= k < ranges@.len() ==> (#[trigger] ranges@[k]).0 <= ranges@[k].1 <= s@.len(),
            out@.len() == idx,
            forall|k: int|
                0 <= k < idx ==> (#[trigger] out@[k]).0 <= out@[k].1 <= s@.len() && bl[k] == (
                    s@.subrange(out@[k].0 as int, out@[k].1 as int),
                    opt_since(out@[k].2),
                ),
        decreases ranges@.len() - idx,
    {
        let (a, b) = ranges[idx];
        let block = slice_copy(s, a, b);
        assert(block@ == bs[idx as int]);
        assert(bl[idx as int] == since_split(block@));
        match since_prefix(&block) {
            Ok((o, x, y)) => {
                assert(s@.subrange(a + x, a + y) =~= block@.subrange(x as int, y as int));
                out.push((a + x, a + y, o));
            },
            Err(_) => {
                out.push((a, b, None));
            },
        }
        idx += 1;
    }
    out
}

/// The view of a list of parts of a source text.
pub open spec fn parts_view(v: Seq<(&str, Option<Since>)>) -> Seq<(Seq<char>, Option<SinceView>)> {
    v.map_values(|p: (&str, Option<Since>)| (p.0@, opt_since(p.1)))
}

/// Splits a list of types such as `[[Number]], [[Boolean]] or [[String]]`
/// into its parts, each with the version it appeared in.
pub fn try_extract_simple_blocks<'a>(source: &'a str) -> (r: Vec<(&'a str, Option<Since>)>)
    ensures
        parts_view(r@) == blocks_of(source@),
{
    let s = chars_of(source);
    let parts = block_parts(&s);
    let mut out: Vec<(&'a str, Option<Since>)> = Vec::new();
    let mut idx: usize = 0;
    while idx < parts.len()
        invariant
            s@ == source@,
            idx <= parts@.len(),
            parts@.len() == blocks_of(s@).len(),
            forall|k: int|
                0 <= k < parts@.len() ==> (#[trigger] parts@[k]).0 <= parts@[k].1 <= s@.len() && blocks_of(s@)[k] == (
                    s@.subrange(parts@[k].0 as int, parts@[k].1 as int),
                    opt_since(parts@[k].2),
                ),
            out@.len() == idx,
            forall|k: int| 0 <= k < idx ==> (#[trigger] parts_view(out@)[k]) == blocks_of(s@)[k],
        decreases parts@.len() - idx,
    {
        let (a, b, o) = parts[idx];
        let piece = source.substring_char(a, b);
        let ghost before = out@;
        out.push((piece, o));
        assert(parts_view(out@) =~= parts_view(before).push((piece@, opt_since(o))));
        idx += 1;
    }
    assert(parts_view(out@) =~= blocks_of(s@));
    out
}

// ----- values -----

/// The view of a parse result.
pub open spec fn value_result(r: Result<Value, String>) -> Result<ValueModel, Seq<char>> {
    match r {
        Ok(v) => Ok(v@),
        Err(e) => Err(e@),
    }
}

/// The text names an array: it mentions `[[Array]]` (any case) or ` of `.
pub open spec fn array_context(s: Seq<char>) -> bool {
    holds(lowercase_of(s), "[[array]]"@) || holds(s, " of "@)
}

/// One type, or the alternatives between several.
pub open spec fn combined(os: Seq<OneOfModel>) -> ValueModel {
    if os.len() == 1 {
        os[0].typ
    } else {
        ValueModel::OneOf(os)
    }
}

/// What `Value::parse` reads at a nesting depth: a simple type, a number
/// range, an array of types, or a list of types (each read one level deeper),
/// which is an array when the text names one. Deeper than 5 is an error.
/// `fuel` bounds how many `[[Array]] of` prefixes are followed.
pub open spec fn value_of_text(s: Seq<char>, depth: int, fuel: nat) -> Result<ValueModel, Seq<char>>
    decreases fuel, 7 - depth, 0int,
{
    if depth > 5 || depth < 0 {
        Err(depth_exceeded())
    } else {
        match simple_type_of(s, 1) {
            Err(e) => Err(e),
            Ok(Some(v)) => Ok(v),
            Ok(None) => match number_range_of(s) {
                Err(e) => Err(e),
                Ok(Some(v)) => Ok(v),
                Ok(None) => match array_of_of(s, fuel) {
                    Err(e) => Err(e),
                    Ok(Some(v)) => Ok(v),
                    Ok(None) => match values_of_blocks(blocks_of(s), depth + 1, fuel) {
                        Err(e) => Err(e),
                        Ok(os) => if array_context(s) {
                            Ok(ValueModel::ArrayUnsized(Box::new(combined(os))))
                        } else {
                            Ok(combined(os))
                        },
                    },
                },
            },
        }
    }
}

/// What `try_array_of_simple` reads: `[[Array]] of` (any case, plurals such as
/// `[[Number]]s` read as the singular) followed by a list of types, each read
/// afresh.
pub open spec fn array_of_of(s: Seq<char>, fuel: nat) -> Result<Option<ValueModel>, Seq<char>>
    decreases fuel, 0int, 0int,
{
    let t = lowercase_of(replaced(trimmed(s), "]]s"@, "]]"@));
    match without_prefix(t, "[[array]] of"@) {
        None => Ok(None),
        Some(rest) => if fuel == 0 {
            Err(depth_exceeded())
        } else {
            match values_of_blocks(blocks_of(rest), 0, (fuel - 1) as nat) {
                Err(e) => Err(e),
                Ok(os) => Ok(Some(ValueModel::ArrayUnsized(Box::new(combined(os))))),
            }
        },
    }
}

/// The types of a list of parts, in order, each with the version it appeared
/// in; the first error stops the list.
pub open spec fn values_of_blocks(bs: Seq<(Seq<char>, Option<SinceView>)>, depth: int, fuel: nat) -> Result<Seq<OneOfModel>, Seq<char>>
    decreases fuel, 7 - depth, bs.len(),
{
    if bs.len() == 0 {
        Ok(Seq::empty())
    } else {
        match value_of_text(bs[0].0, depth, fuel) {
            Err(e) => Err(e),
            Ok(v) => match values_of_blocks(bs.drop_first(), depth, fuel) {
                Err(e) => Err(e),
                Ok(rest) => Ok(seq![OneOfModel { typ: v, desc: None, since: bs[0].1 }] + rest),
            },
        }
    }
}

/// The bound on followed `[[Array]] of` prefixes for a text of `n` characters.
pub open spec fn fuel_for(n: nat) -> nat {
    if n < usize::MAX {
        n + 1
    } else {
        n
    }
}

proof fn lemma_values_step(bs: Seq<(Seq<char>, Option<SinceView>)>, depth: int, fuel: nat, i: int, done: Seq<OneOfModel>, v: ValueModel)
    requires
        0 <= i < bs.len(),
        values_of_blocks(bs, depth, fuel) == (match values_of_blocks(bs.skip(i), depth, fuel) {
            Ok(rest) => Ok::<Seq<OneOfModel>, Seq<char>>(done + rest),
            Err(e) => Err(e),
        }),
        value_of_text(bs[i].0, depth, fuel) == Ok::<ValueModel, Seq<char>>(v),
    ensures
        values_of_blocks(bs, depth, fuel) == (match values_of_blocks(bs.skip(i + 1), depth, fuel) {
            Ok(rest) => Ok::<Seq<OneOfModel>, Seq<char>>(done.push(OneOfModel { typ: v, desc: None, since: bs[i].1 }) + rest),
            Err(e) => Err(e),
        }),
{
    let t = bs.skip(i);
    assert(t[0] == bs[i]);
    assert(t.drop_first() =~= bs.skip(i + 1));
    match values_of_blocks(bs.skip(i + 1), depth, fuel) {
        Ok(rest) => {
            assert(done + (seq![OneOfModel { typ: v, desc: None, since: bs[i].1 }] + rest) =~= done.push(OneOfModel { typ: v, desc: None, since: bs[i].1 }) + rest);
        },
        Err(e) => {},
    }
}

/// Reads the types of the parts of a list, each at the given depth.
fn values_of(s: &[char], parts: &Vec<(usize, usize, Option<Since>)>, depth: u8, fuel: usize) -> (r: Result<Vec<OneOfValue>, String>)
    requires
        forall|k: int| 0 <= k < parts@.len() ==> (#[trigger] parts@[k]).0 <= parts@[k].1 <= s@.len(),
        depth <= 7,
    ensures
        match r {
            Ok(os) => values_of_blocks(parts_of(s@, parts@), depth as int, fuel as nat) == Ok::<Seq<OneOfModel>, Seq<char>>(one_of_model(os@)),
            Err(e) => values_of_blocks(parts_of(s@, parts@), depth as int, fuel as nat) == Err::<Seq<OneOfModel>, Seq<char>>(e@),
        },
    decreases fuel, 7 - depth, parts@.len(),
{
    let ghost bs = parts_of(s@, parts@);
    let mut out: Vec<OneOfValue> = Vec::new();
    let mut idx: usize = 0;
    assert(bs.skip(0) =~= bs);
    assert(one_of_model(out@) =~= Seq::<OneOfModel>::empty());
    while idx < parts.len()
        invariant
            forall|k: int| 0 <= k < parts@.len() ==> (#[trigger] parts@[k]).0 <= parts@[k].1 <= s@.len(),
            depth <= 7,
            bs == parts_of(s@, parts@),
            idx <= parts@.len(),
            values_of_blocks(bs, depth as int, fuel as nat) == (match values_of_blocks(bs.skip(idx as int), depth as int, fuel as nat) {
                Ok(rest) => Ok::<Seq<OneOfModel>, Seq<char>>(one_of_model(out@) + rest),
                Err(e) => Err(e),
            }),
        decreases parts@.len() - idx,
    {
        let (a, b, o) = parts[idx];
        let block = slice_copy(s, a, b);
        assert(bs[idx as int] == (block@, opt_since(o)));
        proof {
            let t = bs.skip(idx as int);
            assert(t[0] == bs[idx as int]);
            assert(t.drop_first() =~= bs.skip(idx + 1));
        }
        let v = match parse_value(&block, depth, fuel) {
            Ok(v) => v,
            Err(e) => {
                return Err(e);
            },
        };
        proof {
            lemma_values_step(bs, depth as int, fuel as nat, idx as int, one_of_model(out@), v@);
        }
        let ghost before = out@;
        out.push(OneOfValue { typ: v, desc: None, since: o });
        assert(one_of_model(out@) =~= one_of_model(before).push(OneOfModel { typ: v@, desc: None, since: opt_since(o) }));
        idx += 1;
    }
    assert(bs.skip(idx as int) =~= Seq::<(Seq<char>, Option<SinceView>)>::empty());
    assert(one_of_model(out@) + Seq::<OneOfModel>::empty() =~= one_of_model(out@));
    Ok(out)
}

/// The texts and versions of parts given by their bounds.
pub open spec fn parts_of(s: Seq<char>, parts: Seq<(usize, usize, Option<Since>)>) -> Seq<(Seq<char>, Option<SinceView>)> {
    parts.map_values(|p: (usize, usize, Option<Since>)| (s.subrange(p.0 as int, p.1 as int), opt_since(p.2)))
}

/// One type, or the alternatives between several.
fn combine(mut os: Vec<OneOfValue>) -> (r: Value)
    ensures
        r@ == combined(one_of_model(os@)),
{
    if os.len() == 1 {
        let o = os.pop().unwrap();
        o.typ
    } else {
        Value::one_of(os)
    }
}

fn array_of(s: &[char], fuel: usize) -> (r: Result<Option<Value>, String>)
    ensures
        maybe_value(r) == array_of_of(s@, fuel as nat),
    decreases fuel, 0int, 0int,
{
    let t0 = trim(s);
    let t1 = replace(&t0, &chars_of("]]s"), &chars_of("]]"));
    let t = lower(&t1);
    let Some(rest) = strip_prefix(&t, &chars_of("[[array]] of")) else {
        return Ok(None);
    };
    if fuel == 0 {
        return Err(string_of(&chars_of("Exceeded maximum recursion depth while parsing Value")));
    }
    let parts = block_parts(&rest);
    proof {
        assert(parts_of(rest@, parts@) =~= blocks_of(rest@));
    }
    let os = values_of(&rest, &parts, 0, fuel - 1)?;
    Ok(Some(Value::array_unsized(combine(os))))
}

fn parse_value(s: &[char], depth: u8, fuel: usize) -> (r: Result<Value, String>)
    ensures
        value_result(r) == value_of_text(s@, depth as int, fuel as nat),
    decreases fuel, 7 - depth, 0int,
{
    if depth > 5 {
        return Err(string_of(&chars_of("Exceeded maximum recursion depth while parsing Value")));
    }
    if let Some(v) = simple_type(s, 1)? {
        return Ok(v);
    }
    if let Some(v) = number_range(s)? {
        return Ok(v);
    }
    if let Some(v) = array_of(s, fuel)? {
        return Ok(v);
    }
    let parts = block_parts(s);
    proof {
        assert(parts_of(s@, parts@) =~= blocks_of(s@));
    }
    let os = values_of(s, &parts, depth + 1, fuel)?;
    let inner = combine(os);
    let ctx = contains(&lower(s), &chars_of("[[array]]")) || contains(s, &chars_of(" of "));
    if ctx {
        Ok(Value::array_unsized(inner))
    } else {
        Ok(inner)
    }
}

/// `Value::parse` on characters.
pub fn value_of_chars(s: &[char], depth: u8) -> (r: Result<Value, String>)
    ensures
        value_result(r) == value_of_text(s@, depth as int, fuel_for(s@.len())),
{
    let fuel = if s.len() < usize::MAX {
        s.len() + 1
    } else {
        s.len()
    };
    parse_value(s, depth, fuel)
}

impl Value {
    /// Reads a type from the wiki's description of it, at a nesting depth.
    /// `[[Array]] of` prefixes are followed as deep as the text is long.
    pub fn parse(source: &str, depth: u8) -> (r: Result<Value, String>)
        ensures
            value_result(r) == value_of_text(source@, depth as int, fuel_for(source@.len())),
    {
        value_of_chars(&chars_of(source), depth)
    }
}

/// Reads `[[Array]] of` followed by a list of types.
pub fn try_array_of_simple(source: &str) -> (r: Result<Option<Value>, String>)
    ensures
        maybe_value(r) == array_of_of(source@, fuel_for(source@.len())),
{
    let s = chars_of(source);
    let fuel = if s.len() < usize::MAX {
        s.len() + 1
    } else {
        s.len()
    };
    array_of(&s, fuel)
}

} // verus!
