//! How a type is written out for people: `Array of Number`, `Number Range (0,10)`.
use vstd::prelude::*;

use crate::text::{ascii_lower_char, chars_of, concat};
use crate::value_parser::kind_of_name;
use crate::value::{
    elements_model, one_of_model, number_enum_model, string_enum_model, ArraySizedElement,
    ElementModel, Kind, NumberEnumModel, NumberEnumValue, OneOfModel, OneOfValue,
    StringEnumModel, StringEnumValue, Value, ValueModel,
};
use crate::version::decimal;

verus! {

/// The name of a type that carries no data.
pub open spec fn kind_text(k: Kind) -> Seq<char> {
    match k {
        Kind::Anything => "Anything"@,
        Kind::ArrayEmpty => "Array Empty"@,
        Kind::ArrayDate => "Array Date"@,
        Kind::ArrayColor => "Array Color"@,
        Kind::ArrayColorRgb => "Array Color RGB"@,
        Kind::ArrayColorRgba => "Array Color RGBA"@,
        Kind::ArrayEdenEntities => "Array Eden Entities"@,
        Kind::Boolean => "Boolean"@,
        Kind::Code => "Code"@,
        Kind::Config => "Config"@,
        Kind::Control => "Control"@,
        Kind::DiaryRecord => "Diary Record"@,
        Kind::Display => "Display"@,
        Kind::EdenEntity => "Eden Entity"@,
        Kind::EdenID => "Eden ID"@,
        Kind::ExceptionHandle => "Exception Handle"@,
        Kind::ForType => "For Type"@,
        Kind::Group => "Group"@,
        Kind::HashMapUnknown => "HashMap Unknown"@,
        Kind::HashMapKey => "HashMap Key"@,
        Kind::IfType => "If Type"@,
        Kind::Location => "Location"@,
        Kind::Namespace => "Namespace"@,
        Kind::Nothing => "Nothing"@,
        Kind::Number => "Number"@,
        Kind::Object => "Object"@,
        Kind::ScriptHandle => "Script Handle"@,
        Kind::Side => "Side"@,
        Kind::String => "String"@,
        Kind::StructuredText => "Structured Text"@,
        Kind::SwitchType => "Switch Type"@,
        Kind::Task => "Task"@,
        Kind::TeamMember => "Team Member"@,
        Kind::Path => "Path"@,
        Kind::TreeViewPath => "Tree View Path"@,
        Kind::TurretPath => "Turret Path"@,
        Kind::UnitLoadoutArray => "Unit Loadout Array"@,
        Kind::ParticleArray => "Particle Array"@,
        Kind::Position => "Position"@,
        Kind::Position2d => "Position 2D"@,
        Kind::Position3d => "Position 3D"@,
        Kind::Position3dASL => "Position 3D ASL"@,
        Kind::Position3dASLW => "Position 3D ASLW"@,
        Kind::Position3dATL => "Position 3D ATL"@,
        Kind::Position3dAGL => "Position 3D AGL"@,
        Kind::Position3dAGLS => "Position 3D AGLS"@,
        Kind::Position3dRelative => "Position 3D Relative"@,
        Kind::Position3dWorld => "Position 3D World"@,
        Kind::Vector => "Vector"@,
        Kind::Vector2d => "Vector 2D"@,
        Kind::Vector3d => "Vector 3D"@,
        Kind::Waypoint => "Waypoint"@,
        Kind::WhileType => "While Type"@,
        Kind::WithType => "With Type"@,
        Kind::Unknown => "Unknown"@,
    }
}

/// The name of a type that carries no data.
pub fn kind_name(k: Kind) -> (r: &'static str)
    ensures
        r@ == kind_text(k),
{
    match k {
        Kind::Anything => "Anything",
        Kind::ArrayEmpty => "Array Empty",
        Kind::ArrayDate => "Array Date",
        Kind::ArrayColor => "Array Color",
        Kind::ArrayColorRgb => "Array Color RGB",
        Kind::ArrayColorRgba => "Array Color RGBA",
        Kind::ArrayEdenEntities => "Array Eden Entities",
        Kind::Boolean => "Boolean",
        Kind::Code => "Code",
        Kind::Config => "Config",
        Kind::Control => "Control",
        Kind::DiaryRecord => "Diary Record",
        Kind::Display => "Display",
        Kind::EdenEntity => "Eden Entity",
        Kind::EdenID => "Eden ID",
        Kind::ExceptionHandle => "Exception Handle",
        Kind::ForType => "For Type",
        Kind::Group => "Group",
        Kind::HashMapUnknown => "HashMap Unknown",
        Kind::HashMapKey => "HashMap Key",
        Kind::IfType => "If Type",
        Kind::Location => "Location",
        Kind::Namespace => "Namespace",
        Kind::Nothing => "Nothing",
        Kind::Number => "Number",
        Kind::Object => "Object",
        Kind::ScriptHandle => "Script Handle",
        Kind::Side => "Side",
        Kind::String => "String",
        Kind::StructuredText => "Structured Text",
        Kind::SwitchType => "Switch Type",
        Kind::Task => "Task",
        Kind::TeamMember => "Team Member",
        Kind::Path => "Path",
        Kind::TreeViewPath => "Tree View Path",
        Kind::TurretPath => "Turret Path",
        Kind::UnitLoadoutArray => "Unit Loadout Array",
        Kind::ParticleArray => "Particle Array",
        Kind::Position => "Position",
        Kind::Position2d => "Position 2D",
        Kind::Position3d => "Position 3D",
        Kind::Position3dASL => "Position 3D ASL",
        Kind::Position3dASLW => "Position 3D ASLW",
        Kind::Position3dATL => "Position 3D ATL",
        Kind::Position3dAGL => "Position 3D AGL",
        Kind::Position3dAGLS => "Position 3D AGLS",
        Kind::Position3dRelative => "Position 3D Relative",
        Kind::Position3dWorld => "Position 3D World",
        Kind::Vector => "Vector",
        Kind::Vector2d => "Vector 2D",
        Kind::Vector3d => "Vector 3D",
        Kind::Waypoint => "Waypoint",
        Kind::WhileType => "While Type",
        Kind::WithType => "With Type",
        Kind::Unknown => "Unknown",
    }
}

/// An integer in decimal, with a minus sign when negative.
pub open spec fn int_text(i: int) -> Seq<char> {
    if i < 0 {
        seq!['-'] + decimal((-i) as nat)
    } else {
        decimal(i as nat)
    }
}

/// Texts joined with ` | `.
pub open spec fn bar_joined(ts: Seq<Seq<char>>) -> Seq<char>
    decreases ts.len(),
{
    if ts.len() == 0 {
        Seq::empty()
    } else if ts.len() == 1 {
        ts[0]
    } else {
        bar_joined(ts.drop_last()) + " | "@ + ts.last()
    }
}

/// How a type is written out: the name of a plain type; `Array [` and one
/// line per element (`name: type` with ` - description` when it has one) and
/// `]`; `Array of` a type; the values of an enumeration between parentheses;
/// `Number Range (min,max)`; the alternatives of a choice joined with ` | `.
pub open spec fn value_text(v: ValueModel) -> Seq<char>
    decreases v, 1int,
{
    match v {
        ValueModel::Plain(k) => kind_text(k),
        ValueModel::ArraySized(es) => "Array ["@ + elements_text(es) + "]"@,
        ValueModel::ArrayUnsized(b) => "Array of "@ + value_text(*b),
        ValueModel::HashMapKnownKeys(_) => "HashMap Known Keys"@,
        ValueModel::NumberEnum(es) => "Number Enum ("@ + bar_joined(
            es.map_values(|e: NumberEnumModel| int_text(e.value as int)),
        ) + ")"@,
        ValueModel::NumberRange(a, b) => "Number Range ("@ + int_text(a as int) + seq![','] + int_text(b as int) + ")"@,
        ValueModel::StringEnum(es) => "String Enum ("@ + bar_joined(es.map_values(|e: StringEnumModel| e.value)) + ")"@,
        ValueModel::OneOf(os) => bar_joined(alternatives_text(os)),
    }
}

/// One line per element of an array type.
pub open spec fn elements_text(es: Seq<ElementModel>) -> Seq<char>
    decreases es, 0int,
{
    if es.len() == 0 {
        Seq::empty()
    } else {
        let e = es[es.len() - 1];
        elements_text(es.subrange(0, es.len() - 1)) + e.name + ": "@ + value_text(e.typ) + match e.desc {
            Some(d) => " - "@ + d,
            None => Seq::empty(),
        } + seq!['\n']
    }
}

/// The texts of the alternatives of a choice.
pub open spec fn alternatives_text(os: Seq<OneOfModel>) -> Seq<Seq<char>>
    decreases os, 0int,
{
    if os.len() == 0 {
        Seq::empty()
    } else {
        alternatives_text(os.subrange(0, os.len() - 1)).push(value_text(os[os.len() - 1].typ))
    }
}

fn push_str(out: &mut Vec<char>, s: &str)
    ensures
        final(out)@ == old(out)@ + s@,
{
    let c = chars_of(s);
    let mut i: usize = 0;
    while i < c.len()
        invariant
            i <= c@.len(),
            out@ == old(out)@ + c@.take(i as int),
        decreases c@.len() - i,
    {
        out.push(c[i]);
        assert(c@.take(i + 1) =~= c@.take(i as int).push(c@[i as int]));
        i += 1;
    }
    assert(c@.take(c@.len() as int) =~= c@);
}

fn push_chars(out: &mut Vec<char>, s: &[char])
    ensures
        final(out)@ == old(out)@ + s@,
{
    let mut i: usize = 0;
    while i < s.len()
        invariant
            i <= s@.len(),
            out@ == old(out)@ + s@.take(i as int),
        decreases s@.len() - i,
    {
        out.push(s[i]);
        assert(s@.take(i + 1) =~= s@.take(i as int).push(s@[i as int]));
        i += 1;
    }
    assert(s@.take(s@.len() as int) =~= s@);
}

fn digits_of(n: u64) -> (r: Vec<char>)
    ensures
        r@ == decimal(n as nat),
    decreases n,
{
    if n < 10 {
        let d = (('0' as u64) + n) as u8 as char;
        let mut r: Vec<char> = Vec::new();
        r.push(d);
        assert(r@ =~= decimal(n as nat));
        r
    } else {
        let mut r = digits_of(n / 10);
        let d = (('0' as u64) + n % 10) as u8 as char;
        let ghost before = r@;
        r.push(d);
        assert(r@ =~= decimal(n as nat));
        r
    }
}

fn push_int(out: &mut Vec<char>, i: i32)
    ensures
        final(out)@ == old(out)@ + int_text(i as int),
{
    if i < 0 {
        out.push('-');
        let ghost mid = out@;
        let m = (0i64 - (i as i64)) as u64;
        push_chars(out, &digits_of(m));
        assert(out@ =~= old(out)@ + int_text(i as int));
    } else {
        push_chars(out, &digits_of(i as u64));
    }
}

fn push_value(v: &Value, out: &mut Vec<char>)
    ensures
        final(out)@ == old(out)@ + value_text(v@),
    decreases v,
{
    match v {
        Value::ArraySized(es) => {
            assert(match v@ { ValueModel::ArraySized(m) => m =~= elements_model(es@), _ => false });
            push_str(out, "Array [");
            push_elements(es, out);
            push_str(out, "]");
            assert(out@ =~= old(out)@ + value_text(v@));
        },
        Value::ArrayUnsized { value } => {
            push_str(out, "Array of ");
            push_value(value, out);
            assert(out@ =~= old(out)@ + value_text(v@));
        },
        Value::HashMapKnownKeys(_) => {
            push_str(out, "HashMap Known Keys");
        },
        Value::NumberEnum(es) => {
            push_str(out, "Number Enum (");
            let ghost mid = out@;
            let mut i: usize = 0;
            let ghost ts = es@.map_values(|e: NumberEnumValue| int_text(e.value as int));
            while i < es.len()
                invariant
                    i <= es@.len(),
                    ts == es@.map_values(|e: NumberEnumValue| int_text(e.value as int)),
                    out@ == mid + bar_joined(ts.take(i as int)),
                decreases es@.len() - i,
            {
                assert(ts.take(i + 1).drop_last() =~= ts.take(i as int));
                if i > 0 {
                    push_str(out, " | ");
                }
                push_int(out, es[i].value);
                proof {
                    if i == 0 {
                        assert(ts.take(1) =~= seq![ts[0]]);
                    }
                }
                assert(out@ =~= mid + bar_joined(ts.take(i + 1)));
                i += 1;
            }
            assert(ts.take(es@.len() as int) =~= ts);
            push_str(out, ")");
            assert(es@.map_values(|e: NumberEnumValue| number_enum_model(e)).map_values(|e: NumberEnumModel| int_text(e.value as int)) =~= ts);
            assert(out@ =~= old(out)@ + value_text(v@));
        },
        Value::NumberRange(a, b) => {
            push_str(out, "Number Range (");
            push_int(out, *a);
            out.push(',');
            push_int(out, *b);
            push_str(out, ")");
            assert(out@ =~= old(out)@ + value_text(v@));
        },
        Value::StringEnum(es) => {
            push_str(out, "String Enum (");
            let ghost mid = out@;
            let mut i: usize = 0;
            let ghost ts = es@.map_values(|e: StringEnumValue| e.value@);
            while i < es.len()
                invariant
                    i <= es@.len(),
                    ts == es@.map_values(|e: StringEnumValue| e.value@),
                    out@ == mid + bar_joined(ts.take(i as int)),
                decreases es@.len() - i,
            {
                assert(ts.take(i + 1).drop_last() =~= ts.take(i as int));
                if i > 0 {
                    push_str(out, " | ");
                }
                push_str(out, es[i].value.as_str());
                proof {
                    if i == 0 {
                        assert(ts.take(1) =~= seq![ts[0]]);
                    }
                }
                assert(out@ =~= mid + bar_joined(ts.take(i + 1)));
                i += 1;
            }
            assert(ts.take(es@.len() as int) =~= ts);
            push_str(out, ")");
            assert(es@.map_values(|e: StringEnumValue| string_enum_model(e)).map_values(|e: StringEnumModel| e.value) =~= ts);
            assert(out@ =~= old(out)@ + value_text(v@));
        },
        Value::OneOf(os) => {
            assert(match v@ { ValueModel::OneOf(m) => m =~= one_of_model(os@), _ => false });
            push_alternatives(os, out);
        },
            Value::Anything => {
                push_str(out, kind_name(Kind::Anything));
            },
            Value::ArrayEmpty => {
                push_str(out, kind_name(Kind::ArrayEmpty));
            },
            Value::ArrayDate => {
                push_str(out, kind_name(Kind::ArrayDate));
            },
            Value::ArrayColor => {
                push_str(out, kind_name(Kind::ArrayColor));
            },
            Value::ArrayColorRgb => {
                push_str(out, kind_name(Kind::ArrayColorRgb));
            },
            Value::ArrayColorRgba => {
                push_str(out, kind_name(Kind::ArrayColorRgba));
            },
            Value::ArrayEdenEntities => {
                push_str(out, kind_name(Kind::ArrayEdenEntities));
            },
            Value::Boolean => {
                push_str(out, kind_name(Kind::Boolean));
            },
            Value::Code => {
                push_str(out, kind_name(Kind::Code));
            },
            Value::Config => {
                push_str(out, kind_name(Kind::Config));
            },
            Value::Control => {
                push_str(out, kind_name(Kind::Control));
            },
            Value::DiaryRecord => {
                push_str(out, kind_name(Kind::DiaryRecord));
            },
            Value::Display => {
                push_str(out, kind_name(Kind::Display));
            },
            Value::EdenEntity => {
                push_str(out, kind_name(Kind::EdenEntity));
            },
            Value::EdenID => {
                push_str(out, kind_name(Kind::EdenID));
            },
            Value::ExceptionHandle => {
                push_str(out, kind_name(Kind::ExceptionHandle));
            },
            Value::ForType => {
                push_str(out, kind_name(Kind::ForType));
            },
            Value::Group => {
                push_str(out, kind_name(Kind::Group));
            },
            Value::HashMapUnknown => {
                push_str(out, kind_name(Kind::HashMapUnknown));
            },
            Value::HashMapKey => {
                push_str(out, kind_name(Kind::HashMapKey));
            },
            Value::IfType => {
                push_str(out, kind_name(Kind::IfType));
            },
            Value::Location => {
                push_str(out, kind_name(Kind::Location));
            },
            Value::Namespace => {
                push_str(out, kind_name(Kind::Namespace));
            },
            Value::Nothing => {
                push_str(out, kind_name(Kind::Nothing));
            },
            Value::Number => {
                push_str(out, kind_name(Kind::Number));
            },
            Value::Object => {
                push_str(out, kind_name(Kind::Object));
            },
            Value::ScriptHandle => {
                push_str(out, kind_name(Kind::ScriptHandle));
            },
            Value::Side => {
                push_str(out, kind_name(Kind::Side));
            },
            Value::String => {
                push_str(out, kind_name(Kind::String));
            },
            Value::StructuredText => {
                push_str(out, kind_name(Kind::StructuredText));
            },
            Value::SwitchType => {
                push_str(out, kind_name(Kind::SwitchType));
            },
            Value::Task => {
                push_str(out, kind_name(Kind::Task));
            },
            Value::TeamMember => {
                push_str(out, kind_name(Kind::TeamMember));
            },
            Value::Path => {
                push_str(out, kind_name(Kind::Path));
            },
            Value::TreeViewPath => {
                push_str(out, kind_name(Kind::TreeViewPath));
            },
            Value::TurretPath => {
                push_str(out, kind_name(Kind::TurretPath));
            },
            Value::UnitLoadoutArray => {
                push_str(out, kind_name(Kind::UnitLoadoutArray));
            },
            Value::ParticleArray => {
                push_str(out, kind_name(Kind::ParticleArray));
            },
            Value::Position => {
                push_str(out, kind_name(Kind::Position));
            },
            Value::Position2d => {
                push_str(out, kind_name(Kind::Position2d));
            },
            Value::Position3d => {
                push_str(out, kind_name(Kind::Position3d));
            },
            Value::Position3dASL => {
                push_str(out, kind_name(Kind::Position3dASL));
            },
            Value::Position3dASLW => {
                push_str(out, kind_name(Kind::Position3dASLW));
            },
            Value::Position3dATL => {
                push_str(out, kind_name(Kind::Position3dATL));
            },
            Value::Position3dAGL => {
                push_str(out, kind_name(Kind::Position3dAGL));
            },
            Value::Position3dAGLS => {
                push_str(out, kind_name(Kind::Position3dAGLS));
            },
            Value::Position3dRelative => {
                push_str(out, kind_name(Kind::Position3dRelative));
            },
            Value::Position3dWorld => {
                push_str(out, kind_name(Kind::Position3dWorld));
            },
            Value::Vector => {
                push_str(out, kind_name(Kind::Vector));
            },
            Value::Vector2d => {
                push_str(out, kind_name(Kind::Vector2d));
            },
            Value::Vector3d => {
                push_str(out, kind_name(Kind::Vector3d));
            },
            Value::Waypoint => {
                push_str(out, kind_name(Kind::Waypoint));
            },
            Value::WhileType => {
                push_str(out, kind_name(Kind::WhileType));
            },
            Value::WithType => {
                push_str(out, kind_name(Kind::WithType));
            },
            Value::Unknown => {
                push_str(out, kind_name(Kind::Unknown));
            },
    }
}

fn push_elements(es: &Vec<ArraySizedElement>, out: &mut Vec<char>)
    ensures
        final(out)@ == old(out)@ + elements_text(elements_model(es@)),
    decreases es, 0int,
{
    let ghost em = elements_model(es@);
    let mut i: usize = 0;
    assert(em.subrange(0, 0) =~= Seq::<ElementModel>::empty());
    while i < es.len()
        invariant
            em == elements_model(es@),
            i <= es@.len(),
            out@ == old(out)@ + elements_text(em.subrange(0, i as int)),
        decreases es@.len() - i,
    {
        let e = &es[i];
        let ghost before = out@;
        let ghost t = em.subrange(0, i + 1);
        assert(t.subrange(0, t.len() - 1) =~= em.subrange(0, i as int));
        assert(t[t.len() - 1] == e@);
        push_str(out, e.name.as_str());
        push_str(out, ": ");
        assert(decreases_to!(es => e.typ)) by {
            assert(decreases_to!(es => es@));
            assert(decreases_to!(es@ => es@[i as int]));
        }
        push_value(&e.typ, out);
        match &e.desc {
            Some(d) => {
                push_str(out, " - ");
                push_str(out, d.as_str());
            },
            None => {},
        }
        out.push('\n');
        assert(out@ =~= old(out)@ + elements_text(em.subrange(0, i + 1)));
        i += 1;
    }
    assert(em.subrange(0, es@.len() as int) =~= em);
}

fn push_alternatives(os: &Vec<OneOfValue>, out: &mut Vec<char>)
    ensures
        final(out)@ == old(out)@ + bar_joined(alternatives_text(one_of_model(os@))),
    decreases os, 0int,
{
    let ghost om = one_of_model(os@);
    let mut i: usize = 0;
    assert(om.subrange(0, 0) =~= Seq::<OneOfModel>::empty());
    while i < os.len()
        invariant
            om == one_of_model(os@),
            i <= os@.len(),
            alternatives_text(om.subrange(0, i as int)).len() == i,
            out@ == old(out)@ + bar_joined(alternatives_text(om.subrange(0, i as int))),
        decreases os@.len() - i,
    {
        let o = &os[i];
        let ghost t = om.subrange(0, i + 1);
        assert(t.subrange(0, t.len() - 1) =~= om.subrange(0, i as int));
        assert(t[t.len() - 1] == o@);
        let ghost ts = alternatives_text(t);
        assert(ts.drop_last() == alternatives_text(om.subrange(0, i as int)));
        if i > 0 {
            push_str(out, " | ");
        }
        assert(decreases_to!(os => o.typ)) by {
            assert(decreases_to!(os => os@));
            assert(decreases_to!(os@ => os@[i as int]));
        }
        push_value(&o.typ, out);
        proof {
            if i == 0 {
                assert(ts =~= seq![ts[0]]);
            }
        }
        assert(out@ =~= old(out)@ + bar_joined(alternatives_text(om.subrange(0, i + 1))));
        i += 1;
    }
    assert(om.subrange(0, os@.len() as int) =~= om);
}

impl Value {
    /// How the type is written out for people.
    pub fn to_display_string(&self) -> (r: String)
        ensures
            r@ == value_text(self@),
    {
        let mut out: Vec<char> = Vec::new();
        push_value(self, &mut out);
        assert(out@ =~= Seq::<char>::empty() + value_text(self@));
        crate::text::string_of(&out)
    }
}



// ----- names read back -----

/// A text as the wiki spells a type name: lowercase, and without spaces where
/// `squeeze`.
pub open spec fn wiki_spelling(s: Seq<char>, squeeze: bool) -> Seq<char>
    decreases s.len(),
{
    if s.len() == 0 {
        Seq::empty()
    } else {
        (if squeeze && s[0] == ' ' {
            Seq::empty()
        } else {
            seq![ascii_lower_char(s[0])]
        }) + wiki_spelling(s.drop_first(), squeeze)
    }
}

/// The types that the wiki names by the name they are written with: all but
/// the arrays of a given shape, the unknown hash map, the plain path and
/// the positions above a given level, which the wiki names otherwise.
pub open spec fn named_as_written(k: Kind) -> bool {
    !(k is ArrayEmpty || k is ArrayDate || k is ArrayColor || k is ArrayColorRgb || k is ArrayColorRgba || k is ArrayEdenEntities || k is HashMapUnknown || k is Path || k is Position3dASL || k is Position3dASLW || k is Position3dATL || k is Position3dAGL || k is Position3dAGLS || k is Position3dRelative || k is Position3dWorld || k is Unknown)
}

proof fn lemma_reads_anything()
    ensures
        kind_of_name(wiki_spelling(kind_text(Kind::Anything), false)) == Some(Kind::Anything),
{
    reveal_strlit("array|empty array");
    reveal_strlit("anything");
    reveal_strlit("Anything");
    reveal_with_fuel(wiki_spelling, 9);
    assert(wiki_spelling(kind_text(Kind::Anything), false) =~= "anything"@);

}

proof fn lemma_reads_boolean()
    ensures
        kind_of_name(wiki_spelling(kind_text(Kind::Boolean), false)) == Some(Kind::Boolean),
{
    reveal_strlit("array|empty array");
    reveal_strlit("anything");
    reveal_strlit("boolean");
    reveal_strlit("Boolean");
    reveal_with_fuel(wiki_spelling, 8);
    assert(wiki_spelling(kind_text(Kind::Boolean), false) =~= "boolean"@);

}

proof fn lemma_reads_code()
    ensures
        kind_of_name(wiki_spelling(kind_text(Kind::Code), false)) == Some(Kind::Code),
{
    reveal_strlit("array|empty array");
    reveal_strlit("anything");
    reveal_strlit("boolean");
    reveal_strlit("code");
    reveal_strlit("Code");
    reveal_with_fuel(wiki_spelling, 5);
    assert(wiki_spelling(kind_text(Kind::Code), false) =~= "code"@);

}

proof fn lemma_reads_config()
    ensures
        kind_of_name(wiki_spelling(kind_text(Kind::Config), false)) == Some(Kind::Config),
{
    reveal_strlit("array|empty array");
    reveal_strlit("anything");
    reveal_strlit("boolean");
    reveal_strlit("code");
    reveal_strlit("config");
    reveal_strlit("Config");
    reveal_with_fuel(wiki_spelling, 7);
    assert(wiki_spelling(kind_text(Kind::Config), false) =~= "config"@);

}

proof fn lemma_reads_control()
    ensures
        kind_of_name(wiki_spelling(kind_text(Kind::Control), false)) == Some(Kind::Control),
{
    reveal_strlit("array|empty array");
    reveal_strlit("anything");
    reveal_strlit("boolean");
    reveal_strlit("code");
    reveal_strlit("config");
    reveal_strlit("control");
    reveal_strlit("Control");
    reveal_with_fuel(wiki_spelling, 8);
    assert(wiki_spelling(kind_text(Kind::Control), false) =~= "control"@);
    assert("control"@[0] != "boolean"@[0]);
}

proof fn lemma_reads_diary_record()
    ensures
        kind_of_name(wiki_spelling(kind_text(Kind::DiaryRecord), false)) == Some(Kind::DiaryRecord),
{
    reveal_strlit("array|empty array");
    reveal_strlit("anything");
    reveal_strlit("boolean");
    reveal_strlit("code");
    reveal_strlit("config");
    reveal_strlit("control");
    reveal_strlit("diary record");
    reveal_strlit("Diary Record");
    reveal_with_fuel(wiki_spelling, 13);
    assert(wiki_spelling(kind_text(Kind::DiaryRecord), false) =~= "diary record"@);

}

proof fn lemma_reads_display()
    ensures
        kind_of_name(wiki_spelling(kind_text(Kind::Display), false)) == Some(Kind::Display),
{
    reveal_strlit("array|empty array");
    reveal_strlit("anything");
    reveal_strlit("boolean");
    reveal_strlit("code");
    reveal_strlit("config");
    reveal_strlit("control");
    reveal_strlit("diary record");
    reveal_strlit("diaryrecord");
    reveal_strlit("display");
    reveal_strlit("Display");
    reveal_with_fuel(wiki_spelling, 8);
    assert(wiki_spelling(kind_text(Kind::Display), false) =~= "display"@);
    assert("display"@[0] != "boolean"@[0]);
    assert("display"@[0] != "control"@[0]);
}

proof fn lemma_reads_eden_entity()
    ensures
        kind_of_name(wiki_spelling(kind_text(Kind::EdenEntity), false)) == Some(Kind::EdenEntity),
{
    reveal_strlit("array|empty array");
    reveal_strlit("anything");
    reveal_strlit("boolean");
    reveal_strlit("code");
    reveal_strlit("config");
    reveal_strlit("control");
    reveal_strlit("diary record");
    reveal_strlit("diaryrecord");
    reveal_strlit("display");
    reveal_strlit("array of eden entities");
    reveal_strlit("eden entity");
    reveal_strlit("Eden Entity");
    reveal_with_fuel(wiki_spelling, 12);
    assert(wiki_spelling(kind_text(Kind::EdenEntity), false) =~= "eden entity"@);
    assert("eden entity"@[0] != "diaryrecord"@[0]);
}

proof fn lemma_reads_eden_i_d()
    ensures
        kind_of_name(wiki_spelling(kind_text(Kind::EdenID), false)) == Some(Kind::EdenID),
{
    reveal_strlit("array|empty array");
    reveal_strlit("anything");
    reveal_strlit("boolean");
    reveal_strlit("code");
    reveal_strlit("config");
    reveal_strlit("control");
    reveal_strlit("diary record");
    reveal_strlit("diaryrecord");
    reveal_strlit("display");
    reveal_strlit("array of eden entities");
    reveal_strlit("eden entity");
    reveal_strlit("edenentity");
    reveal_strlit("eden id");
    reveal_strlit("Eden ID");
    reveal_with_fuel(wiki_spelling, 8);
    assert(wiki_spelling(kind_text(Kind::EdenID), false) =~= "eden id"@);
    assert("eden id"@[0] != "boolean"@[0]);
    assert("eden id"@[0] != "control"@[0]);
    assert("eden id"@[0] != "display"@[0]);
}

proof fn lemma_reads_exception_handle()
    ensures
        kind_of_name(wiki_spelling(kind_text(Kind::ExceptionHandle), false)) == Some(Kind::ExceptionHandle),
{
    reveal_strlit("array|empty array");
    reveal_strlit("anything");
    reveal_strlit("boolean");
    reveal_strlit("code");
    reveal_strlit("config");
    reveal_strlit("control");
    reveal_strlit("diary record");
    reveal_strlit("diaryrecord");
    reveal_strlit("display");
    reveal_strlit("array of eden entities");
    reveal_strlit("eden entity");
    reveal_strlit("edenentity");
    reveal_strlit("eden id");
    reveal_strlit("edenid");
    reveal_strlit("exception handling");
    reveal_strlit("exception handle");
    reveal_strlit("Exception Handle");
    reveal_with_fuel(wiki_spelling, 17);
    assert(wiki_spelling(kind_text(Kind::ExceptionHandle), false) =~= "exception handle"@);

}

proof fn lemma_reads_for_type()
    ensures
        kind_of_name(wiki_spelling(kind_text(Kind::ForType), false)) == Some(Kind::ForType),
{
    reveal_strlit("array|empty array");
    reveal_strlit("anything");
    reveal_strlit("boolean");
    reveal_strlit("code");
    reveal_strlit("config");
    reveal_strlit("control");
    reveal_strlit("diary record");
    reveal_strlit("diaryrecord");
    reveal_strlit("display");
    reveal_strlit("array of eden entities");
    reveal_strlit("eden entity");
    reveal_strlit("edenentity");
    reveal_strlit("eden id");
    reveal_strlit("edenid");
    reveal_strlit("exception handling");
    reveal_strlit("exception handle");
    reveal_strlit("exceptionhandle");
    reveal_strlit("for type");
    reveal_strlit("For Type");
    reveal_with_fuel(wiki_spelling, 9);
    assert(wiki_spelling(kind_text(Kind::ForType), false) =~= "for type"@);
    assert("for type"@[0] != "anything"@[0]);
}

proof fn lemma_reads_group()
    ensures
        kind_of_name(wiki_spelling(kind_text(Kind::Group), false)) == Some(Kind::Group),
{
    reveal_strlit("array|empty array");
    reveal_strlit("anything");
    reveal_strlit("boolean");
    reveal_strlit("code");
    reveal_strlit("config");
    reveal_strlit("control");
    reveal_strlit("diary record");
    reveal_strlit("diaryrecord");
    reveal_strlit("display");
    reveal_strlit("array of eden entities");
    reveal_strlit("eden entity");
    reveal_strlit("edenentity");
    reveal_strlit("eden id");
    reveal_strlit("edenid");
    reveal_strlit("exception handling");
    reveal_strlit("exception handle");
    reveal_strlit("exceptionhandle");
    reveal_strlit("for type");
    reveal_strlit("fortype");
    reveal_strlit("group");
    reveal_strlit("Group");
    reveal_with_fuel(wiki_spelling, 6);
    assert(wiki_spelling(kind_text(Kind::Group), false) =~= "group"@);

}

proof fn lemma_reads_hash_map_key()
    ensures
        kind_of_name(wiki_spelling(kind_text(Kind::HashMapKey), false)) == Some(Kind::HashMapKey),
{
    reveal_strlit("array|empty array");
    reveal_strlit("anything");
    reveal_strlit("boolean");
    reveal_strlit("code");
    reveal_strlit("config");
    reveal_strlit("control");
    reveal_strlit("diary record");
    reveal_strlit("diaryrecord");
    reveal_strlit("display");
    reveal_strlit("array of eden entities");
    reveal_strlit("eden entity");
    reveal_strlit("edenentity");
    reveal_strlit("eden id");
    reveal_strlit("edenid");
    reveal_strlit("exception handling");
    reveal_strlit("exception handle");
    reveal_strlit("exceptionhandle");
    reveal_strlit("for type");
    reveal_strlit("fortype");
    reveal_strlit("group");
    reveal_strlit("hashmap");
    reveal_strlit("hashmapkey");
    reveal_strlit("hashmap key");
    reveal_strlit("HashMap Key");
    reveal_with_fuel(wiki_spelling, 12);
    assert(wiki_spelling(kind_text(Kind::HashMapKey), false) =~= "hashmap key"@);
    assert("hashmap key"@[0] != "diaryrecord"@[0]);
    assert("hashmap key"@[0] != "eden entity"@[0]);
}

proof fn lemma_reads_if_type()
    ensures
        kind_of_name(wiki_spelling(kind_text(Kind::IfType), false)) == Some(Kind::IfType),
{
    reveal_strlit("array|empty array");
    reveal_strlit("anything");
    reveal_strlit("boolean");
    reveal_strlit("code");
    reveal_strlit("config");
    reveal_strlit("control");
    reveal_strlit("diary record");
    reveal_strlit("diaryrecord");
    reveal_strlit("display");
    reveal_strlit("array of eden entities");
    reveal_strlit("eden entity");
    reveal_strlit("edenentity");
    reveal_strlit("eden id");
    reveal_strlit("edenid");
    reveal_strlit("exception handling");
    reveal_strlit("exception handle");
    reveal_strlit("exceptionhandle");
    reveal_strlit("for type");
    reveal_strlit("fortype");
    reveal_strlit("group");
    reveal_strlit("hashmap");
    reveal_strlit("hashmapkey");
    reveal_strlit("hashmap key");
    reveal_strlit("if type");
    reveal_strlit("If Type");
    reveal_with_fuel(wiki_spelling, 8);
    assert(wiki_spelling(kind_text(Kind::IfType), false) =~= "if type"@);
    assert("if type"@[0] != "boolean"@[0]);
    assert("if type"@[0] != "control"@[0]);
    assert("if type"@[0] != "display"@[0]);
    assert("if type"@[0] != "eden id"@[0]);
    assert("if type"@[0] != "fortype"@[0]);
    assert("if type"@[0] != "hashmap"@[0]);
}

proof fn lemma_reads_location()
    ensures
        kind_of_name(wiki_spelling(kind_text(Kind::Location), false)) == Some(Kind::Location),
{
    reveal_strlit("array|empty array");
    reveal_strlit("anything");
    reveal_strlit("boolean");
    reveal_strlit("code");
    reveal_strlit("config");
    reveal_strlit("control");
    reveal_strlit("diary record");
    reveal_strlit("diaryrecord");
    reveal_strlit("display");
    reveal_strlit("array of eden entities");
    reveal_strlit("eden entity");
    reveal_strlit("edenentity");
    reveal_strlit("eden id");
    reveal_strlit("edenid");
    reveal_strlit("exception handling");
    reveal_strlit("exception handle");
    reveal_strlit("exceptionhandle");
    reveal_strlit("for type");
    reveal_strlit("fortype");
    reveal_strlit("group");
    reveal_strlit("hashmap");
    reveal_strlit("hashmapkey");
    reveal_strlit("hashmap key");
    reveal_strlit("if type");
    reveal_strlit("iftype");
    reveal_strlit("location");
    reveal_strlit("Location");
    reveal_with_fuel(wiki_spelling, 9);
    assert(wiki_spelling(kind_text(Kind::Location), false) =~= "location"@);
    assert("location"@[0] != "anything"@[0]);
    assert("location"@[0] != "for type"@[0]);
}

proof fn lemma_reads_namespace()
    ensures
        kind_of_name(wiki_spelling(kind_text(Kind::Namespace), false)) == Some(Kind::Namespace),
{
    reveal_strlit("array|empty array");
    reveal_strlit("anything");
    reveal_strlit("boolean");
    reveal_strlit("code");
    reveal_strlit("config");
    reveal_strlit("control");
    reveal_strlit("diary record");
    reveal_strlit("diaryrecord");
    reveal_strlit("display");
    reveal_strlit("array of eden entities");
    reveal_strlit("eden entity");
    reveal_strlit("edenentity");
    reveal_strlit("eden id");
    reveal_strlit("edenid");
    reveal_strlit("exception handling");
    reveal_strlit("exception handle");
    reveal_strlit("exceptionhandle");
    reveal_strlit("for type");
    reveal_strlit("fortype");
    reveal_strlit("group");
    reveal_strlit("hashmap");
    reveal_strlit("hashmapkey");
    reveal_strlit("hashmap key");
    reveal_strlit("if type");
    reveal_strlit("iftype");
    reveal_strlit("location");
    reveal_strlit("namespace");
    reveal_strlit("Namespace");
    reveal_with_fuel(wiki_spelling, 10);
    assert(wiki_spelling(kind_text(Kind::Namespace), false) =~= "namespace"@);

}

proof fn lemma_reads_nothing()
    ensures
        kind_of_name(wiki_spelling(kind_text(Kind::Nothing), false)) == Some(Kind::Nothing),
{
    reveal_strlit("array|empty array");
    reveal_strlit("anything");
    reveal_strlit("boolean");
    reveal_strlit("code");
    reveal_strlit("config");
    reveal_strlit("control");
    reveal_strlit("diary record");
    reveal_strlit("diaryrecord");
    reveal_strlit("display");
    reveal_strlit("array of eden entities");
    reveal_strlit("eden entity");
    reveal_strlit("edenentity");
    reveal_strlit("eden id");
    reveal_strlit("edenid");
    reveal_strlit("exception handling");
    reveal_strlit("exception handle");
    reveal_strlit("exceptionhandle");
    reveal_strlit("for type");
    reveal_strlit("fortype");
    reveal_strlit("group");
    reveal_strlit("hashmap");
    reveal_strlit("hashmapkey");
    reveal_strlit("hashmap key");
    reveal_strlit("if type");
    reveal_strlit("iftype");
    reveal_strlit("location");
    reveal_strlit("namespace");
    reveal_strlit("nothing");
    reveal_strlit("Nothing");
    reveal_with_fuel(wiki_spelling, 8);
    assert(wiki_spelling(kind_text(Kind::Nothing), false) =~= "nothing"@);
    assert("nothing"@[0] != "boolean"@[0]);
    assert("nothing"@[0] != "control"@[0]);
    assert("nothing"@[0] != "display"@[0]);
    assert("nothing"@[0] != "eden id"@[0]);
    assert("nothing"@[0] != "fortype"@[0]);
    assert("nothing"@[0] != "hashmap"@[0]);
    assert("nothing"@[0] != "if type"@[0]);
}

proof fn lemma_reads_number()
    ensures
        kind_of_name(wiki_spelling(kind_text(Kind::Number), false)) == Some(Kind::Number),
{
    reveal_strlit("array|empty array");
    reveal_strlit("anything");
    reveal_strlit("boolean");
    reveal_strlit("code");
    reveal_strlit("config");
    reveal_strlit("control");
    reveal_strlit("diary record");
    reveal_strlit("diaryrecord");
    reveal_strlit("display");
    reveal_strlit("array of eden entities");
    reveal_strlit("eden entity");
    reveal_strlit("edenentity");
    reveal_strlit("eden id");
    reveal_strlit("edenid");
    reveal_strlit("exception handling");
    reveal_strlit("exception handle");
    reveal_strlit("exceptionhandle");
    reveal_strlit("for type");
    reveal_strlit("fortype");
    reveal_strlit("group");
    reveal_strlit("hashmap");
    reveal_strlit("hashmapkey");
    reveal_strlit("hashmap key");
    reveal_strlit("if type");
    reveal_strlit("iftype");
    reveal_strlit("location");
    reveal_strlit("namespace");
    reveal_strlit("nothing");
    reveal_strlit("number");
    reveal_strlit("Number");
    reveal_with_fuel(wiki_spelling, 7);
    assert(wiki_spelling(kind_text(Kind::Number), false) =~= "number"@);
    assert("number"@[0] != "config"@[0]);
    assert("number"@[0] != "edenid"@[0]);
    assert("number"@[0] != "iftype"@[0]);
}

proof fn lemma_reads_object()
    ensures
        kind_of_name(wiki_spelling(kind_text(Kind::Object), false)) == Some(Kind::Object),
{
    reveal_strlit("array|empty array");
    reveal_strlit("anything");
    reveal_strlit("boolean");
    reveal_strlit("code");
    reveal_strlit("config");
    reveal_strlit("control");
    reveal_strlit("diary record");
    reveal_strlit("diaryrecord");
    reveal_strlit("display");
    reveal_strlit("array of eden entities");
    reveal_strlit("eden entity");
    reveal_strlit("edenentity");
    reveal_strlit("eden id");
    reveal_strlit("edenid");
    reveal_strlit("exception handling");
    reveal_strlit("exception handle");
    reveal_strlit("exceptionhandle");
    reveal_strlit("for type");
    reveal_strlit("fortype");
    reveal_strlit("group");
    reveal_strlit("hashmap");
    reveal_strlit("hashmapkey");
    reveal_strlit("hashmap key");
    reveal_strlit("if type");
    reveal_strlit("iftype");
    reveal_strlit("location");
    reveal_strlit("namespace");
    reveal_strlit("nothing");
    reveal_strlit("number");
    reveal_strlit("object");
    reveal_strlit("Object");
    reveal_with_fuel(wiki_spelling, 7);
    assert(wiki_spelling(kind_text(Kind::Object), false) =~= "object"@);
    assert("object"@[0] != "config"@[0]);
    assert("object"@[0] != "edenid"@[0]);
    assert("object"@[0] != "iftype"@[0]);
    assert("object"@[0] != "number"@[0]);
}

proof fn lemma_reads_script_handle()
    ensures
        kind_of_name(wiki_spelling(kind_text(Kind::ScriptHandle), false)) == Some(Kind::ScriptHandle),
{
    reveal_strlit("array|empty array");
    reveal_strlit("anything");
    reveal_strlit("boolean");
    reveal_strlit("code");
    reveal_strlit("config");
    reveal_strlit("control");
    reveal_strlit("diary record");
    reveal_strlit("diaryrecord");
    reveal_strlit("display");
    reveal_strlit("array of eden entities");
    reveal_strlit("eden entity");
    reveal_strlit("edenentity");
    reveal_strlit("eden id");
    reveal_strlit("edenid");
    reveal_strlit("exception handling");
    reveal_strlit("exception handle");
    reveal_strlit("exceptionhandle");
    reveal_strlit("for type");
    reveal_strlit("fortype");
    reveal_strlit("group");
    reveal_strlit("hashmap");
    reveal_strlit("hashmapkey");
    reveal_strlit("hashmap key");
    reveal_strlit("if type");
    reveal_strlit("iftype");
    reveal_strlit("location");
    reveal_strlit("namespace");
    reveal_strlit("nothing");
    reveal_strlit("number");
    reveal_strlit("object");
    reveal_strlit("script handle");
    reveal_strlit("Script Handle");
    reveal_with_fuel(wiki_spelling, 14);
    assert(wiki_spelling(kind_text(Kind::ScriptHandle), false) =~= "script handle"@);

}

proof fn lemma_reads_side()
    ensures
        kind_of_name(wiki_spelling(kind_text(Kind::Side), false)) == Some(Kind::Side),
{
    reveal_strlit("array|empty array");
    reveal_strlit("anything");
    reveal_strlit("boolean");
    reveal_strlit("code");
    reveal_strlit("config");
    reveal_strlit("control");
    reveal_strlit("diary record");
    reveal_strlit("diaryrecord");
    reveal_strlit("display");
    reveal_strlit("array of eden entities");
    reveal_strlit("eden entity");
    reveal_strlit("edenentity");
    reveal_strlit("eden id");
    reveal_strlit("edenid");
    reveal_strlit("exception handling");
    reveal_strlit("exception handle");
    reveal_strlit("exceptionhandle");
    reveal_strlit("for type");
    reveal_strlit("fortype");
    reveal_strlit("group");
    reveal_strlit("hashmap");
    reveal_strlit("hashmapkey");
    reveal_strlit("hashmap key");
    reveal_strlit("if type");
    reveal_strlit("iftype");
    reveal_strlit("location");
    reveal_strlit("namespace");
    reveal_strlit("nothing");
    reveal_strlit("number");
    reveal_strlit("object");
    reveal_strlit("script handle");
    reveal_strlit("scripthandle");
    reveal_strlit("side");
    reveal_strlit("Side");
    reveal_with_fuel(wiki_spelling, 5);
    assert(wiki_spelling(kind_text(Kind::Side), false) =~= "side"@);
    assert("side"@[0] != "code"@[0]);
}

proof fn lemma_reads_string()
    ensures
        kind_of_name(wiki_spelling(kind_text(Kind::String), false)) == Some(Kind::String),
{
    reveal_strlit("array|empty array");
    reveal_strlit("anything");
    reveal_strlit("boolean");
    reveal_strlit("code");
    reveal_strlit("config");
    reveal_strlit("control");
    reveal_strlit("diary record");
    reveal_strlit("diaryrecord");
    reveal_strlit("display");
    reveal_strlit("array of eden entities");
    reveal_strlit("eden entity");
    reveal_strlit("edenentity");
    reveal_strlit("eden id");
    reveal_strlit("edenid");
    reveal_strlit("exception handling");
    reveal_strlit("exception handle");
    reveal_strlit("exceptionhandle");
    reveal_strlit("for type");
    reveal_strlit("fortype");
    reveal_strlit("group");
    reveal_strlit("hashmap");
    reveal_strlit("hashmapkey");
    reveal_strlit("hashmap key");
    reveal_strlit("if type");
    reveal_strlit("iftype");
    reveal_strlit("location");
    reveal_strlit("namespace");
    reveal_strlit("nothing");
    reveal_strlit("number");
    reveal_strlit("object");
    reveal_strlit("script handle");
    reveal_strlit("scripthandle");
    reveal_strlit("side");
    reveal_strlit("string");
    reveal_strlit("String");
    reveal_with_fuel(wiki_spelling, 7);
    assert(wiki_spelling(kind_text(Kind::String), false) =~= "string"@);
    assert("string"@[0] != "config"@[0]);
    assert("string"@[0] != "edenid"@[0]);
    assert("string"@[0] != "iftype"@[0]);
    assert("string"@[0] != "number"@[0]);
    assert("string"@[0] != "object"@[0]);
}

proof fn lemma_reads_structured_text()
    ensures
        kind_of_name(wiki_spelling(kind_text(Kind::StructuredText), false)) == Some(Kind::StructuredText),
{
    reveal_strlit("array|empty array");
    reveal_strlit("anything");
    reveal_strlit("boolean");
    reveal_strlit("code");
    reveal_strlit("config");
    reveal_strlit("control");
    reveal_strlit("diary record");
    reveal_strlit("diaryrecord");
    reveal_strlit("display");
    reveal_strlit("array of eden entities");
    reveal_strlit("eden entity");
    reveal_strlit("edenentity");
    reveal_strlit("eden id");
    reveal_strlit("edenid");
    reveal_strlit("exception handling");
    reveal_strlit("exception handle");
    reveal_strlit("exceptionhandle");
    reveal_strlit("for type");
    reveal_strlit("fortype");
    reveal_strlit("group");
    reveal_strlit("hashmap");
    reveal_strlit("hashmapkey");
    reveal_strlit("hashmap key");
    reveal_strlit("if type");
    reveal_strlit("iftype");
    reveal_strlit("location");
    reveal_strlit("namespace");
    reveal_strlit("nothing");
    reveal_strlit("number");
    reveal_strlit("object");
    reveal_strlit("script handle");
    reveal_strlit("scripthandle");
    reveal_strlit("side");
    reveal_strlit("string");
    reveal_strlit("structured text");
    reveal_strlit("Structured Text");
    reveal_with_fuel(wiki_spelling, 16);
    assert(wiki_spelling(kind_text(Kind::StructuredText), false) =~= "structured text"@);
    assert("structured text"@[0] != "exceptionhandle"@[0]);
}

proof fn lemma_reads_switch_type()
    ensures
        kind_of_name(wiki_spelling(kind_text(Kind::SwitchType), false)) == Some(Kind::SwitchType),
{
    reveal_strlit("array|empty array");
    reveal_strlit("anything");
    reveal_strlit("boolean");
    reveal_strlit("code");
    reveal_strlit("config");
    reveal_strlit("control");
    reveal_strlit("diary record");
    reveal_strlit("diaryrecord");
    reveal_strlit("display");
    reveal_strlit("array of eden entities");
    reveal_strlit("eden entity");
    reveal_strlit("edenentity");
    reveal_strlit("eden id");
    reveal_strlit("edenid");
    reveal_strlit("exception handling");
    reveal_strlit("exception handle");
    reveal_strlit("exceptionhandle");
    reveal_strlit("for type");
    reveal_strlit("fortype");
    reveal_strlit("group");
    reveal_strlit("hashmap");
    reveal_strlit("hashmapkey");
    reveal_strlit("hashmap key");
    reveal_strlit("if type");
    reveal_strlit("iftype");
    reveal_strlit("location");
    reveal_strlit("namespace");
    reveal_strlit("nothing");
    reveal_strlit("number");
    reveal_strlit("object");
    reveal_strlit("script handle");
    reveal_strlit("scripthandle");
    reveal_strlit("side");
    reveal_strlit("string");
    reveal_strlit("structured text");
    reveal_strlit("structuredtext");
    reveal_strlit("switch type");
    reveal_strlit("Switch Type");
    reveal_with_fuel(wiki_spelling, 12);
    assert(wiki_spelling(kind_text(Kind::SwitchType), false) =~= "switch type"@);
    assert("switch type"@[0] != "diaryrecord"@[0]);
    assert("switch type"@[0] != "eden entity"@[0]);
    assert("switch type"@[0] != "hashmap key"@[0]);
}

proof fn lemma_reads_task()
    ensures
        kind_of_name(wiki_spelling(kind_text(Kind::Task), false)) == Some(Kind::Task),
{
    reveal_strlit("array|empty array");
    reveal_strlit("anything");
    reveal_strlit("boolean");
    reveal_strlit("code");
    reveal_strlit("config");
    reveal_strlit("control");
    reveal_strlit("diary record");
    reveal_strlit("diaryrecord");
    reveal_strlit("display");
    reveal_strlit("array of eden entities");
    reveal_strlit("eden entity");
    reveal_strlit("edenentity");
    reveal_strlit("eden id");
    reveal_strlit("edenid");
    reveal_strlit("exception handling");
    reveal_strlit("exception handle");
    reveal_strlit("exceptionhandle");
    reveal_strlit("for type");
    reveal_strlit("fortype");
    reveal_strlit("group");
    reveal_strlit("hashmap");
    reveal_strlit("hashmapkey");
    reveal_strlit("hashmap key");
    reveal_strlit("if type");
    reveal_strlit("iftype");
    reveal_strlit("location");
    reveal_strlit("namespace");
    reveal_strlit("nothing");
    reveal_strlit("number");
    reveal_strlit("object");
    reveal_strlit("script handle");
    reveal_strlit("scripthandle");
    reveal_strlit("side");
    reveal_strlit("string");
    reveal_strlit("structured text");
    reveal_strlit("structuredtext");
    reveal_strlit("switch type");
    reveal_strlit("switchtype");
    reveal_strlit("task");
    reveal_strlit("Task");
    reveal_with_fuel(wiki_spelling, 5);
    assert(wiki_spelling(kind_text(Kind::Task), false) =~= "task"@);
    assert("task"@[0] != "code"@[0]);
    assert("task"@[0] != "side"@[0]);
}

proof fn lemma_reads_team_member()
    ensures
        kind_of_name(wiki_spelling(kind_text(Kind::TeamMember), false)) == Some(Kind::TeamMember),
{
    reveal_strlit("array|empty array");
    reveal_strlit("anything");
    reveal_strlit("boolean");
    reveal_strlit("code");
    reveal_strlit("config");
    reveal_strlit("control");
    reveal_strlit("diary record");
    reveal_strlit("diaryrecord");
    reveal_strlit("display");
    reveal_strlit("array of eden entities");
    reveal_strlit("eden entity");
    reveal_strlit("edenentity");
    reveal_strlit("eden id");
    reveal_strlit("edenid");
    reveal_strlit("exception handling");
    reveal_strlit("exception handle");
    reveal_strlit("exceptionhandle");
    reveal_strlit("for type");
    reveal_strlit("fortype");
    reveal_strlit("group");
    reveal_strlit("hashmap");
    reveal_strlit("hashmapkey");
    reveal_strlit("hashmap key");
    reveal_strlit("if type");
    reveal_strlit("iftype");
    reveal_strlit("location");
    reveal_strlit("namespace");
    reveal_strlit("nothing");
    reveal_strlit("number");
    reveal_strlit("object");
    reveal_strlit("script handle");
    reveal_strlit("scripthandle");
    reveal_strlit("side");
    reveal_strlit("string");
    reveal_strlit("structured text");
    reveal_strlit("structuredtext");
    reveal_strlit("switch type");
    reveal_strlit("switchtype");
    reveal_strlit("task");
    reveal_strlit("team member");
    reveal_strlit("Team Member");
    reveal_with_fuel(wiki_spelling, 12);
    assert(wiki_spelling(kind_text(Kind::TeamMember), false) =~= "team member"@);
    assert("team member"@[0] != "diaryrecord"@[0]);
    assert("team member"@[0] != "eden entity"@[0]);
    assert("team member"@[0] != "hashmap key"@[0]);
    assert("team member"@[0] != "switch type"@[0]);
}

proof fn lemma_reads_tree_view_path()
    ensures
        kind_of_name(wiki_spelling(kind_text(Kind::TreeViewPath), false)) == Some(Kind::TreeViewPath),
{
    reveal_strlit("array|empty array");
    reveal_strlit("anything");
    reveal_strlit("boolean");
    reveal_strlit("code");
    reveal_strlit("config");
    reveal_strlit("control");
    reveal_strlit("diary record");
    reveal_strlit("diaryrecord");
    reveal_strlit("display");
    reveal_strlit("array of eden entities");
    reveal_strlit("eden entity");
    reveal_strlit("edenentity");
    reveal_strlit("eden id");
    reveal_strlit("edenid");
    reveal_strlit("exception handling");
    reveal_strlit("exception handle");
    reveal_strlit("exceptionhandle");
    reveal_strlit("for type");
    reveal_strlit("fortype");
    reveal_strlit("group");
    reveal_strlit("hashmap");
    reveal_strlit("hashmapkey");
    reveal_strlit("hashmap key");
    reveal_strlit("if type");
    reveal_strlit("iftype");
    reveal_strlit("location");
    reveal_strlit("namespace");
    reveal_strlit("nothing");
    reveal_strlit("number");
    reveal_strlit("object");
    reveal_strlit("script handle");
    reveal_strlit("scripthandle");
    reveal_strlit("side");
    reveal_strlit("string");
    reveal_strlit("structured text");
    reveal_strlit("structuredtext");
    reveal_strlit("switch type");
    reveal_strlit("switchtype");
    reveal_strlit("task");
    reveal_strlit("team member");
    reveal_strlit("teammember");
    reveal_strlit("path");
    reveal_strlit("tree view path");
    reveal_strlit("Tree View Path");
    reveal_with_fuel(wiki_spelling, 15);
    assert(wiki_spelling(kind_text(Kind::TreeViewPath), false) =~= "tree view path"@);
    assert("tree view path"@[0] != "structuredtext"@[0]);
}

proof fn lemma_reads_turret_path()
    ensures
        kind_of_name(wiki_spelling(kind_text(Kind::TurretPath), false)) == Some(Kind::TurretPath),
{
    reveal_strlit("array|empty array");
    reveal_strlit("anything");
    reveal_strlit("boolean");
    reveal_strlit("code");
    reveal_strlit("config");
    reveal_strlit("control");
    reveal_strlit("diary record");
    reveal_strlit("diaryrecord");
    reveal_strlit("display");
    reveal_strlit("array of eden entities");
    reveal_strlit("eden entity");
    reveal_strlit("edenentity");
    reveal_strlit("eden id");
    reveal_strlit("edenid");
    reveal_strlit("exception handling");
    reveal_strlit("exception handle");
    reveal_strlit("exceptionhandle");
    reveal_strlit("for type");
    reveal_strlit("fortype");
    reveal_strlit("group");
    reveal_strlit("hashmap");
    reveal_strlit("hashmapkey");
    reveal_strlit("hashmap key");
    reveal_strlit("if type");
    reveal_strlit("iftype");
    reveal_strlit("location");
    reveal_strlit("namespace");
    reveal_strlit("nothing");
    reveal_strlit("number");
    reveal_strlit("object");
    reveal_strlit("script handle");
    reveal_strlit("scripthandle");
    reveal_strlit("side");
    reveal_strlit("string");
    reveal_strlit("structured text");
    reveal_strlit("structuredtext");
    reveal_strlit("switch type");
    reveal_strlit("switchtype");
    reveal_strlit("task");
    reveal_strlit("team member");
    reveal_strlit("teammember");
    reveal_strlit("path");
    reveal_strlit("tree view path");
    reveal_strlit("date");
    reveal_strlit("color|color (rgb)");
    reveal_strlit("color rgb");
    reveal_strlit("colorrgb");
    reveal_strlit("color|color (rgba)");
    reveal_strlit("color rgba");
    reveal_strlit("colorrgba");
    reveal_strlit("color");
    reveal_strlit("turret path");
    reveal_strlit("Turret Path");
    reveal_with_fuel(wiki_spelling, 12);
    assert(wiki_spelling(kind_text(Kind::TurretPath), false) =~= "turret path"@);
    assert("turret path"@[0] != "diaryrecord"@[0]);
    assert("turret path"@[0] != "eden entity"@[0]);
    assert("turret path"@[0] != "hashmap key"@[0]);
    assert("turret path"@[0] != "switch type"@[0]);
    assert("turret path"@[1] != "team member"@[1]);
}

proof fn lemma_reads_unit_loadout_array()
    ensures
        kind_of_name(wiki_spelling(kind_text(Kind::UnitLoadoutArray), true)) == Some(Kind::UnitLoadoutArray),
{
    reveal_strlit("array|empty array");
    reveal_strlit("anything");
    reveal_strlit("boolean");
    reveal_strlit("code");
    reveal_strlit("config");
    reveal_strlit("control");
    reveal_strlit("diary record");
    reveal_strlit("diaryrecord");
    reveal_strlit("display");
    reveal_strlit("array of eden entities");
    reveal_strlit("eden entity");
    reveal_strlit("edenentity");
    reveal_strlit("eden id");
    reveal_strlit("edenid");
    reveal_strlit("exception handling");
    reveal_strlit("exception handle");
    reveal_strlit("exceptionhandle");
    reveal_strlit("for type");
    reveal_strlit("fortype");
    reveal_strlit("group");
    reveal_strlit("hashmap");
    reveal_strlit("hashmapkey");
    reveal_strlit("hashmap key");
    reveal_strlit("if type");
    reveal_strlit("iftype");
    reveal_strlit("location");
    reveal_strlit("namespace");
    reveal_strlit("nothing");
    reveal_strlit("number");
    reveal_strlit("object");
    reveal_strlit("script handle");
    reveal_strlit("scripthandle");
    reveal_strlit("side");
    reveal_strlit("string");
    reveal_strlit("structured text");
    reveal_strlit("structuredtext");
    reveal_strlit("switch type");
    reveal_strlit("switchtype");
    reveal_strlit("task");
    reveal_strlit("team member");
    reveal_strlit("teammember");
    reveal_strlit("path");
    reveal_strlit("tree view path");
    reveal_strlit("date");
    reveal_strlit("color|color (rgb)");
    reveal_strlit("color rgb");
    reveal_strlit("colorrgb");
    reveal_strlit("color|color (rgba)");
    reveal_strlit("color rgba");
    reveal_strlit("colorrgba");
    reveal_strlit("color");
    reveal_strlit("turret path");
    reveal_strlit("turretpath");
    reveal_strlit("unitloadoutarray");
    reveal_strlit("Unit Loadout Array");
    reveal_with_fuel(wiki_spelling, 19);
    assert(wiki_spelling(kind_text(Kind::UnitLoadoutArray), true) =~= "unitloadoutarray"@);
    assert("unitloadoutarray"@[0] != "exception handle"@[0]);
}

proof fn lemma_reads_particle_array()
    ensures
        kind_of_name(wiki_spelling(kind_text(Kind::ParticleArray), false)) == Some(Kind::ParticleArray),
{
    reveal_strlit("array|empty array");
    reveal_strlit("anything");
    reveal_strlit("boolean");
    reveal_strlit("code");
    reveal_strlit("config");
    reveal_strlit("control");
    reveal_strlit("diary record");
    reveal_strlit("diaryrecord");
    reveal_strlit("display");
    reveal_strlit("array of eden entities");
    reveal_strlit("eden entity");
    reveal_strlit("edenentity");
    reveal_strlit("eden id");
    reveal_strlit("edenid");
    reveal_strlit("exception handling");
    reveal_strlit("exception handle");
    reveal_strlit("exceptionhandle");
    reveal_strlit("for type");
    reveal_strlit("fortype");
    reveal_strlit("group");
    reveal_strlit("hashmap");
    reveal_strlit("hashmapkey");
    reveal_strlit("hashmap key");
    reveal_strlit("if type");
    reveal_strlit("iftype");
    reveal_strlit("location");
    reveal_strlit("namespace");
    reveal_strlit("nothing");
    reveal_strlit("number");
    reveal_strlit("object");
    reveal_strlit("script handle");
    reveal_strlit("scripthandle");
    reveal_strlit("side");
    reveal_strlit("string");
    reveal_strlit("structured text");
    reveal_strlit("structuredtext");
    reveal_strlit("switch type");
    reveal_strlit("switchtype");
    reveal_strlit("task");
    reveal_strlit("team member");
    reveal_strlit("teammember");
    reveal_strlit("path");
    reveal_strlit("tree view path");
    reveal_strlit("date");
    reveal_strlit("color|color (rgb)");
    reveal_strlit("color rgb");
    reveal_strlit("colorrgb");
    reveal_strlit("color|color (rgba)");
    reveal_strlit("color rgba");
    reveal_strlit("colorrgba");
    reveal_strlit("color");
    reveal_strlit("turret path");
    reveal_strlit("turretpath");
    reveal_strlit("unitloadoutarray");
    reveal_strlit("position");
    reveal_strlit("position#introduction|position2d");
    reveal_strlit("position#position2d");
    reveal_strlit("position2d");
    reveal_strlit("position#introduction|position3d");
    reveal_strlit("position#position3d");
    reveal_strlit("position3d");
    reveal_strlit("position#positionasl");
    reveal_strlit("positionasl");
    reveal_strlit("position#positionaslw");
    reveal_strlit("positionaslw");
    reveal_strlit("positionworld");
    reveal_strlit("position#positionatl");
    reveal_strlit("positionatl");
    reveal_strlit("position#positionagl");
    reveal_strlit("positionagl");
    reveal_strlit("position#positionagls");
    reveal_strlit("positionagls");
    reveal_strlit("position#positionrelative");
    reveal_strlit("positionrelative");
    reveal_strlit("vector");
    reveal_strlit("vector2d");
    reveal_strlit("vector3d");
    reveal_strlit("waypoint");
    reveal_strlit("while type");
    reveal_strlit("whiletype");
    reveal_strlit("with type");
    reveal_strlit("withtype");
    reveal_strlit("particlearray");
    reveal_strlit("particle array");
    reveal_strlit("Particle Array");
    reveal_with_fuel(wiki_spelling, 15);
    assert(wiki_spelling(kind_text(Kind::ParticleArray), false) =~= "particle array"@);
    assert("particle array"@[0] != "structuredtext"@[0]);
    assert("particle array"@[0] != "tree view path"@[0]);
}

proof fn lemma_reads_position()
    ensures
        kind_of_name(wiki_spelling(kind_text(Kind::Position), false)) == Some(Kind::Position),
{
    reveal_strlit("array|empty array");
    reveal_strlit("anything");
    reveal_strlit("boolean");
    reveal_strlit("code");
    reveal_strlit("config");
    reveal_strlit("control");
    reveal_strlit("diary record");
    reveal_strlit("diaryrecord");
    reveal_strlit("display");
    reveal_strlit("array of eden entities");
    reveal_strlit("eden entity");
    reveal_strlit("edenentity");
    reveal_strlit("eden id");
    reveal_strlit("edenid");
    reveal_strlit("exception handling");
    reveal_strlit("exception handle");
    reveal_strlit("exceptionhandle");
    reveal_strlit("for type");
    reveal_strlit("fortype");
    reveal_strlit("group");
    reveal_strlit("hashmap");
    reveal_strlit("hashmapkey");
    reveal_strlit("hashmap key");
    reveal_strlit("if type");
    reveal_strlit("iftype");
    reveal_strlit("location");
    reveal_strlit("namespace");
    reveal_strlit("nothing");
    reveal_strlit("number");
    reveal_strlit("object");
    reveal_strlit("script handle");
    reveal_strlit("scripthandle");
    reveal_strlit("side");
    reveal_strlit("string");
    reveal_strlit("structured text");
    reveal_strlit("structuredtext");
    reveal_strlit("switch type");
    reveal_strlit("switchtype");
    reveal_strlit("task");
    reveal_strlit("team member");
    reveal_strlit("teammember");
    reveal_strlit("path");
    reveal_strlit("tree view path");
    reveal_strlit("date");
    reveal_strlit("color|color (rgb)");
    reveal_strlit("color rgb");
    reveal_strlit("colorrgb");
    reveal_strlit("color|color (rgba)");
    reveal_strlit("color rgba");
    reveal_strlit("colorrgba");
    reveal_strlit("color");
    reveal_strlit("turret path");
    reveal_strlit("turretpath");
    reveal_strlit("unitloadoutarray");
    reveal_strlit("position");
    reveal_strlit("Position");
    reveal_with_fuel(wiki_spelling, 9);
    assert(wiki_spelling(kind_text(Kind::Position), false) =~= "position"@);
    assert("position"@[0] != "anything"@[0]);
    assert("position"@[0] != "for type"@[0]);
    assert("position"@[0] != "location"@[0]);
    assert("position"@[0] != "colorrgb"@[0]);
}

proof fn lemma_reads_position2d()
    ensures
        kind_of_name(wiki_spelling(kind_text(Kind::Position2d), true)) == Some(Kind::Position2d),
{
    reveal_strlit("array|empty array");
    reveal_strlit("anything");
    reveal_strlit("boolean");
    reveal_strlit("code");
    reveal_strlit("config");
    reveal_strlit("control");
    reveal_strlit("diary record");
    reveal_strlit("diaryrecord");
    reveal_strlit("display");
    reveal_strlit("array of eden entities");
    reveal_strlit("eden entity");
    reveal_strlit("edenentity");
    reveal_strlit("eden id");
    reveal_strlit("edenid");
    reveal_strlit("exception handling");
    reveal_strlit("exception handle");
    reveal_strlit("exceptionhandle");
    reveal_strlit("for type");
    reveal_strlit("fortype");
    reveal_strlit("group");
    reveal_strlit("hashmap");
    reveal_strlit("hashmapkey");
    reveal_strlit("hashmap key");
    reveal_strlit("if type");
    reveal_strlit("iftype");
    reveal_strlit("location");
    reveal_strlit("namespace");
    reveal_strlit("nothing");
    reveal_strlit("number");
    reveal_strlit("object");
    reveal_strlit("script handle");
    reveal_strlit("scripthandle");
    reveal_strlit("side");
    reveal_strlit("string");
    reveal_strlit("structured text");
    reveal_strlit("structuredtext");
    reveal_strlit("switch type");
    reveal_strlit("switchtype");
    reveal_strlit("task");
    reveal_strlit("team member");
    reveal_strlit("teammember");
    reveal_strlit("path");
    reveal_strlit("tree view path");
    reveal_strlit("date");
    reveal_strlit("color|color (rgb)");
    reveal_strlit("color rgb");
    reveal_strlit("colorrgb");
    reveal_strlit("color|color (rgba)");
    reveal_strlit("color rgba");
    reveal_strlit("colorrgba");
    reveal_strlit("color");
    reveal_strlit("turret path");
    reveal_strlit("turretpath");
    reveal_strlit("unitloadoutarray");
    reveal_strlit("position");
    reveal_strlit("position#introduction|position2d");
    reveal_strlit("position#position2d");
    reveal_strlit("position2d");
    reveal_strlit("Position 2D");
    reveal_with_fuel(wiki_spelling, 12);
    assert(wiki_spelling(kind_text(Kind::Position2d), true) =~= "position2d"@);
    assert("position2d"@[0] != "edenentity"@[0]);
    assert("position2d"@[0] != "hashmapkey"@[0]);
    assert("position2d"@[0] != "switchtype"@[0]);
    assert("position2d"@[0] != "teammember"@[0]);
    assert("position2d"@[0] != "color rgba"@[0]);
    assert("position2d"@[0] != "turretpath"@[0]);
}

proof fn lemma_reads_position3d()
    ensures
        kind_of_name(wiki_spelling(kind_text(Kind::Position3d), true)) == Some(Kind::Position3d),
{
    reveal_strlit("array|empty array");
    reveal_strlit("anything");
    reveal_strlit("boolean");
    reveal_strlit("code");
    reveal_strlit("config");
    reveal_strlit("control");
    reveal_strlit("diary record");
    reveal_strlit("diaryrecord");
    reveal_strlit("display");
    reveal_strlit("array of eden entities");
    reveal_strlit("eden entity");
    reveal_strlit("edenentity");
    reveal_strlit("eden id");
    reveal_strlit("edenid");
    reveal_strlit("exception handling");
    reveal_strlit("exception handle");
    reveal_strlit("exceptionhandle");
    reveal_strlit("for type");
    reveal_strlit("fortype");
    reveal_strlit("group");
    reveal_strlit("hashmap");
    reveal_strlit("hashmapkey");
    reveal_strlit("hashmap key");
    reveal_strlit("if type");
    reveal_strlit("iftype");
    reveal_strlit("location");
    reveal_strlit("namespace");
    reveal_strlit("nothing");
    reveal_strlit("number");
    reveal_strlit("object");
    reveal_strlit("script handle");
    reveal_strlit("scripthandle");
    reveal_strlit("side");
    reveal_strlit("string");
    reveal_strlit("structured text");
    reveal_strlit("structuredtext");
    reveal_strlit("switch type");
    reveal_strlit("switchtype");
    reveal_strlit("task");
    reveal_strlit("team member");
    reveal_strlit("teammember");
    reveal_strlit("path");
    reveal_strlit("tree view path");
    reveal_strlit("date");
    reveal_strlit("color|color (rgb)");
    reveal_strlit("color rgb");
    reveal_strlit("colorrgb");
    reveal_strlit("color|color (rgba)");
    reveal_strlit("color rgba");
    reveal_strlit("colorrgba");
    reveal_strlit("color");
    reveal_strlit("turret path");
    reveal_strlit("turretpath");
    reveal_strlit("unitloadoutarray");
    reveal_strlit("position");
    reveal_strlit("position#introduction|position2d");
    reveal_strlit("position#position2d");
    reveal_strlit("position2d");
    reveal_strlit("position#introduction|position3d");
    reveal_strlit("position#position3d");
    reveal_strlit("position3d");
    reveal_strlit("Position 3D");
    reveal_with_fuel(wiki_spelling, 12);
    assert(wiki_spelling(kind_text(Kind::Position3d), true) =~= "position3d"@);
    assert("position3d"@[0] != "edenentity"@[0]);
    assert("position3d"@[0] != "hashmapkey"@[0]);
    assert("position3d"@[0] != "switchtype"@[0]);
    assert("position3d"@[0] != "teammember"@[0]);
    assert("position3d"@[0] != "color rgba"@[0]);
    assert("position3d"@[0] != "turretpath"@[0]);
    assert("position3d"@[8] != "position2d"@[8]);
}

proof fn lemma_reads_vector()
    ensures
        kind_of_name(wiki_spelling(kind_text(Kind::Vector), false)) == Some(Kind::Vector),
{
    reveal_strlit("array|empty array");
    reveal_strlit("anything");
    reveal_strlit("boolean");
    reveal_strlit("code");
    reveal_strlit("config");
    reveal_strlit("control");
    reveal_strlit("diary record");
    reveal_strlit("diaryrecord");
    reveal_strlit("display");
    reveal_strlit("array of eden entities");
    reveal_strlit("eden entity");
    reveal_strlit("edenentity");
    reveal_strlit("eden id");
    reveal_strlit("edenid");
    reveal_strlit("exception handling");
    reveal_strlit("exception handle");
    reveal_strlit("exceptionhandle");
    reveal_strlit("for type");
    reveal_strlit("fortype");
    reveal_strlit("group");
    reveal_strlit("hashmap");
    reveal_strlit("hashmapkey");
    reveal_strlit("hashmap key");
    reveal_strlit("if type");
    reveal_strlit("iftype");
    reveal_strlit("location");
    reveal_strlit("namespace");
    reveal_strlit("nothing");
    reveal_strlit("number");
    reveal_strlit("object");
    reveal_strlit("script handle");
    reveal_strlit("scripthandle");
    reveal_strlit("side");
    reveal_strlit("string");
    reveal_strlit("structured text");
    reveal_strlit("structuredtext");
    reveal_strlit("switch type");
    reveal_strlit("switchtype");
    reveal_strlit("task");
    reveal_strlit("team member");
    reveal_strlit("teammember");
    reveal_strlit("path");
    reveal_strlit("tree view path");
    reveal_strlit("date");
    reveal_strlit("color|color (rgb)");
    reveal_strlit("color rgb");
    reveal_strlit("colorrgb");
    reveal_strlit("color|color (rgba)");
    reveal_strlit("color rgba");
    reveal_strlit("colorrgba");
    reveal_strlit("color");
    reveal_strlit("turret path");
    reveal_strlit("turretpath");
    reveal_strlit("unitloadoutarray");
    reveal_strlit("position");
    reveal_strlit("position#introduction|position2d");
    reveal_strlit("position#position2d");
    reveal_strlit("position2d");
    reveal_strlit("position#introduction|position3d");
    reveal_strlit("position#position3d");
    reveal_strlit("position3d");
    reveal_strlit("position#positionasl");
    reveal_strlit("positionasl");
    reveal_strlit("position#positionaslw");
    reveal_strlit("positionaslw");
    reveal_strlit("positionworld");
    reveal_strlit("position#positionatl");
    reveal_strlit("positionatl");
    reveal_strlit("position#positionagl");
    reveal_strlit("positionagl");
    reveal_strlit("position#positionagls");
    reveal_strlit("positionagls");
    reveal_strlit("position#positionrelative");
    reveal_strlit("positionrelative");
    reveal_strlit("vector");
    reveal_strlit("Vector");
    reveal_with_fuel(wiki_spelling, 7);
    assert(wiki_spelling(kind_text(Kind::Vector), false) =~= "vector"@);
    assert("vector"@[0] != "config"@[0]);
    assert("vector"@[0] != "edenid"@[0]);
    assert("vector"@[0] != "iftype"@[0]);
    assert("vector"@[0] != "number"@[0]);
    assert("vector"@[0] != "object"@[0]);
    assert("vector"@[0] != "string"@[0]);
}

proof fn lemma_reads_vector2d()
    ensures
        kind_of_name(wiki_spelling(kind_text(Kind::Vector2d), true)) == Some(Kind::Vector2d),
{
    reveal_strlit("array|empty array");
    reveal_strlit("anything");
    reveal_strlit("boolean");
    reveal_strlit("code");
    reveal_strlit("config");
    reveal_strlit("control");
    reveal_strlit("diary record");
    reveal_strlit("diaryrecord");
    reveal_strlit("display");
    reveal_strlit("array of eden entities");
    reveal_strlit("eden entity");
    reveal_strlit("edenentity");
    reveal_strlit("eden id");
    reveal_strlit("edenid");
    reveal_strlit("exception handling");
    reveal_strlit("exception handle");
    reveal_strlit("exceptionhandle");
    reveal_strlit("for type");
    reveal_strlit("fortype");
    reveal_strlit("group");
    reveal_strlit("hashmap");
    reveal_strlit("hashmapkey");
    reveal_strlit("hashmap key");
    reveal_strlit("if type");
    reveal_strlit("iftype");
    reveal_strlit("location");
    reveal_strlit("namespace");
    reveal_strlit("nothing");
    reveal_strlit("number");
    reveal_strlit("object");
    reveal_strlit("script handle");
    reveal_strlit("scripthandle");
    reveal_strlit("side");
    reveal_strlit("string");
    reveal_strlit("structured text");
    reveal_strlit("structuredtext");
    reveal_strlit("switch type");
    reveal_strlit("switchtype");
    reveal_strlit("task");
    reveal_strlit("team member");
    reveal_strlit("teammember");
    reveal_strlit("path");
    reveal_strlit("tree view path");
    reveal_strlit("date");
    reveal_strlit("color|color (rgb)");
    reveal_strlit("color rgb");
    reveal_strlit("colorrgb");
    reveal_strlit("color|color (rgba)");
    reveal_strlit("color rgba");
    reveal_strlit("colorrgba");
    reveal_strlit("color");
    reveal_strlit("turret path");
    reveal_strlit("turretpath");
    reveal_strlit("unitloadoutarray");
    reveal_strlit("position");
    reveal_strlit("position#introduction|position2d");
    reveal_strlit("position#position2d");
    reveal_strlit("position2d");
    reveal_strlit("position#introduction|position3d");
    reveal_strlit("position#position3d");
    reveal_strlit("position3d");
    reveal_strlit("position#positionasl");
    reveal_strlit("positionasl");
    reveal_strlit("position#positionaslw");
    reveal_strlit("positionaslw");
    reveal_strlit("positionworld");
    reveal_strlit("position#positionatl");
    reveal_strlit("positionatl");
    reveal_strlit("position#positionagl");
    reveal_strlit("positionagl");
    reveal_strlit("position#positionagls");
    reveal_strlit("positionagls");
    reveal_strlit("position#positionrelative");
    reveal_strlit("positionrelative");
    reveal_strlit("vector");
    reveal_strlit("vector2d");
    reveal_strlit("Vector 2D");
    reveal_with_fuel(wiki_spelling, 10);
    assert(wiki_spelling(kind_text(Kind::Vector2d), true) =~= "vector2d"@);
    assert("vector2d"@[0] != "anything"@[0]);
    assert("vector2d"@[0] != "for type"@[0]);
    assert("vector2d"@[0] != "location"@[0]);
    assert("vector2d"@[0] != "colorrgb"@[0]);
    assert("vector2d"@[0] != "position"@[0]);
}

proof fn lemma_reads_vector3d()
    ensures
        kind_of_name(wiki_spelling(kind_text(Kind::Vector3d), true)) == Some(Kind::Vector3d),
{
    reveal_strlit("array|empty array");
    reveal_strlit("anything");
    reveal_strlit("boolean");
    reveal_strlit("code");
    reveal_strlit("config");
    reveal_strlit("control");
    reveal_strlit("diary record");
    reveal_strlit("diaryrecord");
    reveal_strlit("display");
    reveal_strlit("array of eden entities");
    reveal_strlit("eden entity");
    reveal_strlit("edenentity");
    reveal_strlit("eden id");
    reveal_strlit("edenid");
    reveal_strlit("exception handling");
    reveal_strlit("exception handle");
    reveal_strlit("exceptionhandle");
    reveal_strlit("for type");
    reveal_strlit("fortype");
    reveal_strlit("group");
    reveal_strlit("hashmap");
    reveal_strlit("hashmapkey");
    reveal_strlit("hashmap key");
    reveal_strlit("if type");
    reveal_strlit("iftype");
    reveal_strlit("location");
    reveal_strlit("namespace");
    reveal_strlit("nothing");
    reveal_strlit("number");
    reveal_strlit("object");
    reveal_strlit("script handle");
    reveal_strlit("scripthandle");
    reveal_strlit("side");
    reveal_strlit("string");
    reveal_strlit("structured text");
    reveal_strlit("structuredtext");
    reveal_strlit("switch type");
    reveal_strlit("switchtype");
    reveal_strlit("task");
    reveal_strlit("team member");
    reveal_strlit("teammember");
    reveal_strlit("path");
    reveal_strlit("tree view path");
    reveal_strlit("date");
    reveal_strlit("color|color (rgb)");
    reveal_strlit("color rgb");
    reveal_strlit("colorrgb");
    reveal_strlit("color|color (rgba)");
    reveal_strlit("color rgba");
    reveal_strlit("colorrgba");
    reveal_strlit("color");
    reveal_strlit("turret path");
    reveal_strlit("turretpath");
    reveal_strlit("unitloadoutarray");
    reveal_strlit("position");
    reveal_strlit("position#introduction|position2d");
    reveal_strlit("position#position2d");
    reveal_strlit("position2d");
    reveal_strlit("position#introduction|position3d");
    reveal_strlit("position#position3d");
    reveal_strlit("position3d");
    reveal_strlit("position#positionasl");
    reveal_strlit("positionasl");
    reveal_strlit("position#positionaslw");
    reveal_strlit("positionaslw");
    reveal_strlit("positionworld");
    reveal_strlit("position#positionatl");
    reveal_strlit("positionatl");
    reveal_strlit("position#positionagl");
    reveal_strlit("positionagl");
    reveal_strlit("position#positionagls");
    reveal_strlit("positionagls");
    reveal_strlit("position#positionrelative");
    reveal_strlit("positionrelative");
    reveal_strlit("vector");
    reveal_strlit("vector2d");
    reveal_strlit("vector3d");
    reveal_strlit("Vector 3D");
    reveal_with_fuel(wiki_spelling, 10);
    assert(wiki_spelling(kind_text(Kind::Vector3d), true) =~= "vector3d"@);
    assert("vector3d"@[0] != "anything"@[0]);
    assert("vector3d"@[0] != "for type"@[0]);
    assert("vector3d"@[0] != "location"@[0]);
    assert("vector3d"@[0] != "colorrgb"@[0]);
    assert("vector3d"@[0] != "position"@[0]);
    assert("vector3d"@[6] != "vector2d"@[6]);
}

proof fn lemma_reads_waypoint()
    ensures
        kind_of_name(wiki_spelling(kind_text(Kind::Waypoint), false)) == Some(Kind::Waypoint),
{
    reveal_strlit("array|empty array");
    reveal_strlit("anything");
    reveal_strlit("boolean");
    reveal_strlit("code");
    reveal_strlit("config");
    reveal_strlit("control");
    reveal_strlit("diary record");
    reveal_strlit("diaryrecord");
    reveal_strlit("display");
    reveal_strlit("array of eden entities");
    reveal_strlit("eden entity");
    reveal_strlit("edenentity");
    reveal_strlit("eden id");
    reveal_strlit("edenid");
    reveal_strlit("exception handling");
    reveal_strlit("exception handle");
    reveal_strlit("exceptionhandle");
    reveal_strlit("for type");
    reveal_strlit("fortype");
    reveal_strlit("group");
    reveal_strlit("hashmap");
    reveal_strlit("hashmapkey");
    reveal_strlit("hashmap key");
    reveal_strlit("if type");
    reveal_strlit("iftype");
    reveal_strlit("location");
    reveal_strlit("namespace");
    reveal_strlit("nothing");
    reveal_strlit("number");
    reveal_strlit("object");
    reveal_strlit("script handle");
    reveal_strlit("scripthandle");
    reveal_strlit("side");
    reveal_strlit("string");
    reveal_strlit("structured text");
    reveal_strlit("structuredtext");
    reveal_strlit("switch type");
    reveal_strlit("switchtype");
    reveal_strlit("task");
    reveal_strlit("team member");
    reveal_strlit("teammember");
    reveal_strlit("path");
    reveal_strlit("tree view path");
    reveal_strlit("date");
    reveal_strlit("color|color (rgb)");
    reveal_strlit("color rgb");
    reveal_strlit("colorrgb");
    reveal_strlit("color|color (rgba)");
    reveal_strlit("color rgba");
    reveal_strlit("colorrgba");
    reveal_strlit("color");
    reveal_strlit("turret path");
    reveal_strlit("turretpath");
    reveal_strlit("unitloadoutarray");
    reveal_strlit("position");
    reveal_strlit("position#introduction|position2d");
    reveal_strlit("position#position2d");
    reveal_strlit("position2d");
    reveal_strlit("position#introduction|position3d");
    reveal_strlit("position#position3d");
    reveal_strlit("position3d");
    reveal_strlit("position#positionasl");
    reveal_strlit("positionasl");
    reveal_strlit("position#positionaslw");
    reveal_strlit("positionaslw");
    reveal_strlit("positionworld");
    reveal_strlit("position#positionatl");
    reveal_strlit("positionatl");
    reveal_strlit("position#positionagl");
    reveal_strlit("positionagl");
    reveal_strlit("position#positionagls");
    reveal_strlit("positionagls");
    reveal_strlit("position#positionrelative");
    reveal_strlit("positionrelative");
    reveal_strlit("vector");
    reveal_strlit("vector2d");
    reveal_strlit("vector3d");
    reveal_strlit("waypoint");
    reveal_strlit("Waypoint");
    reveal_with_fuel(wiki_spelling, 9);
    assert(wiki_spelling(kind_text(Kind::Waypoint), false) =~= "waypoint"@);
    assert("waypoint"@[0] != "anything"@[0]);
    assert("waypoint"@[0] != "for type"@[0]);
    assert("waypoint"@[0] != "location"@[0]);
    assert("waypoint"@[0] != "colorrgb"@[0]);
    assert("waypoint"@[0] != "position"@[0]);
    assert("waypoint"@[0] != "vector2d"@[0]);
    assert("waypoint"@[0] != "vector3d"@[0]);
}

proof fn lemma_reads_while_type()
    ensures
        kind_of_name(wiki_spelling(kind_text(Kind::WhileType), false)) == Some(Kind::WhileType),
{
    reveal_strlit("array|empty array");
    reveal_strlit("anything");
    reveal_strlit("boolean");
    reveal_strlit("code");
    reveal_strlit("config");
    reveal_strlit("control");
    reveal_strlit("diary record");
    reveal_strlit("diaryrecord");
    reveal_strlit("display");
    reveal_strlit("array of eden entities");
    reveal_strlit("eden entity");
    reveal_strlit("edenentity");
    reveal_strlit("eden id");
    reveal_strlit("edenid");
    reveal_strlit("exception handling");
    reveal_strlit("exception handle");
    reveal_strlit("exceptionhandle");
    reveal_strlit("for type");
    reveal_strlit("fortype");
    reveal_strlit("group");
    reveal_strlit("hashmap");
    reveal_strlit("hashmapkey");
    reveal_strlit("hashmap key");
    reveal_strlit("if type");
    reveal_strlit("iftype");
    reveal_strlit("location");
    reveal_strlit("namespace");
    reveal_strlit("nothing");
    reveal_strlit("number");
    reveal_strlit("object");
    reveal_strlit("script handle");
    reveal_strlit("scripthandle");
    reveal_strlit("side");
    reveal_strlit("string");
    reveal_strlit("structured text");
    reveal_strlit("structuredtext");
    reveal_strlit("switch type");
    reveal_strlit("switchtype");
    reveal_strlit("task");
    reveal_strlit("team member");
    reveal_strlit("teammember");
    reveal_strlit("path");
    reveal_strlit("tree view path");
    reveal_strlit("date");
    reveal_strlit("color|color (rgb)");
    reveal_strlit("color rgb");
    reveal_strlit("colorrgb");
    reveal_strlit("color|color (rgba)");
    reveal_strlit("color rgba");
    reveal_strlit("colorrgba");
    reveal_strlit("color");
    reveal_strlit("turret path");
    reveal_strlit("turretpath");
    reveal_strlit("unitloadoutarray");
    reveal_strlit("position");
    reveal_strlit("position#introduction|position2d");
    reveal_strlit("position#position2d");
    reveal_strlit("position2d");
    reveal_strlit("position#introduction|position3d");
    reveal_strlit("position#position3d");
    reveal_strlit("position3d");
    reveal_strlit("position#positionasl");
    reveal_strlit("positionasl");
    reveal_strlit("position#positionaslw");
    reveal_strlit("positionaslw");
    reveal_strlit("positionworld");
    reveal_strlit("position#positionatl");
    reveal_strlit("positionatl");
    reveal_strlit("position#positionagl");
    reveal_strlit("positionagl");
    reveal_strlit("position#positionagls");
    reveal_strlit("positionagls");
    reveal_strlit("position#positionrelative");
    reveal_strlit("positionrelative");
    reveal_strlit("vector");
    reveal_strlit("vector2d");
    reveal_strlit("vector3d");
    reveal_strlit("waypoint");
    reveal_strlit("while type");
    reveal_strlit("While Type");
    reveal_with_fuel(wiki_spelling, 11);
    assert(wiki_spelling(kind_text(Kind::WhileType), false) =~= "while type"@);
    assert("while type"@[0] != "edenentity"@[0]);
    assert("while type"@[0] != "hashmapkey"@[0]);
    assert("while type"@[0] != "switchtype"@[0]);
    assert("while type"@[0] != "teammember"@[0]);
    assert("while type"@[0] != "color rgba"@[0]);
    assert("while type"@[0] != "turretpath"@[0]);
    assert("while type"@[0] != "position2d"@[0]);
    assert("while type"@[0] != "position3d"@[0]);
}

proof fn lemma_reads_with_type()
    ensures
        kind_of_name(wiki_spelling(kind_text(Kind::WithType), false)) == Some(Kind::WithType),
{
    reveal_strlit("array|empty array");
    reveal_strlit("anything");
    reveal_strlit("boolean");
    reveal_strlit("code");
    reveal_strlit("config");
    reveal_strlit("control");
    reveal_strlit("diary record");
    reveal_strlit("diaryrecord");
    reveal_strlit("display");
    reveal_strlit("array of eden entities");
    reveal_strlit("eden entity");
    reveal_strlit("edenentity");
    reveal_strlit("eden id");
    reveal_strlit("edenid");
    reveal_strlit("exception handling");
    reveal_strlit("exception handle");
    reveal_strlit("exceptionhandle");
    reveal_strlit("for type");
    reveal_strlit("fortype");
    reveal_strlit("group");
    reveal_strlit("hashmap");
    reveal_strlit("hashmapkey");
    reveal_strlit("hashmap key");
    reveal_strlit("if type");
    reveal_strlit("iftype");
    reveal_strlit("location");
    reveal_strlit("namespace");
    reveal_strlit("nothing");
    reveal_strlit("number");
    reveal_strlit("object");
    reveal_strlit("script handle");
    reveal_strlit("scripthandle");
    reveal_strlit("side");
    reveal_strlit("string");
    reveal_strlit("structured text");
    reveal_strlit("structuredtext");
    reveal_strlit("switch type");
    reveal_strlit("switchtype");
    reveal_strlit("task");
    reveal_strlit("team member");
    reveal_strlit("teammember");
    reveal_strlit("path");
    reveal_strlit("tree view path");
    reveal_strlit("date");
    reveal_strlit("color|color (rgb)");
    reveal_strlit("color rgb");
    reveal_strlit("colorrgb");
    reveal_strlit("color|color (rgba)");
    reveal_strlit("color rgba");
    reveal_strlit("colorrgba");
    reveal_strlit("color");
    reveal_strlit("turret path");
    reveal_strlit("turretpath");
    reveal_strlit("unitloadoutarray");
    reveal_strlit("position");
    reveal_strlit("position#introduction|position2d");
    reveal_strlit("position#position2d");
    reveal_strlit("position2d");
    reveal_strlit("position#introduction|position3d");
    reveal_strlit("position#position3d");
    reveal_strlit("position3d");
    reveal_strlit("position#positionasl");
    reveal_strlit("positionasl");
    reveal_strlit("position#positionaslw");
    reveal_strlit("positionaslw");
    reveal_strlit("positionworld");
    reveal_strlit("position#positionatl");
    reveal_strlit("positionatl");
    reveal_strlit("position#positionagl");
    reveal_strlit("positionagl");
    reveal_strlit("position#positionagls");
    reveal_strlit("positionagls");
    reveal_strlit("position#positionrelative");
    reveal_strlit("positionrelative");
    reveal_strlit("vector");
    reveal_strlit("vector2d");
    reveal_strlit("vector3d");
    reveal_strlit("waypoint");
    reveal_strlit("while type");
    reveal_strlit("whiletype");
    reveal_strlit("with type");
    reveal_strlit("With Type");
    reveal_with_fuel(wiki_spelling, 10);
    assert(wiki_spelling(kind_text(Kind::WithType), false) =~= "with type"@);
    assert("with type"@[0] != "namespace"@[0]);
    assert("with type"@[0] != "color rgb"@[0]);
    assert("with type"@[0] != "colorrgba"@[0]);
    assert("with type"@[1] != "whiletype"@[1]);
}

/// A type's written name, in the wiki's spelling (lowercase, and without
/// spaces for the `squeezed` types), reads back as that type: `Side` is read from `side`,
/// `Boolean` from `boolean`, `Vector 2D` from `vector2d`.
pub proof fn lemma_kind_names_read_back(k: Kind)
    requires
        named_as_written(k),
    ensures
        kind_of_name(wiki_spelling(kind_text(k), squeezed(k))) == Some(k),
{
    match k {
        Kind::Anything => lemma_reads_anything(),
        Kind::Boolean => lemma_reads_boolean(),
        Kind::Code => lemma_reads_code(),
        Kind::Config => lemma_reads_config(),
        Kind::Control => lemma_reads_control(),
        Kind::DiaryRecord => lemma_reads_diary_record(),
        Kind::Display => lemma_reads_display(),
        Kind::EdenEntity => lemma_reads_eden_entity(),
        Kind::EdenID => lemma_reads_eden_i_d(),
        Kind::ExceptionHandle => lemma_reads_exception_handle(),
        Kind::ForType => lemma_reads_for_type(),
        Kind::Group => lemma_reads_group(),
        Kind::HashMapKey => lemma_reads_hash_map_key(),
        Kind::IfType => lemma_reads_if_type(),
        Kind::Location => lemma_reads_location(),
        Kind::Namespace => lemma_reads_namespace(),
        Kind::Nothing => lemma_reads_nothing(),
        Kind::Number => lemma_reads_number(),
        Kind::Object => lemma_reads_object(),
        Kind::ScriptHandle => lemma_reads_script_handle(),
        Kind::Side => lemma_reads_side(),
        Kind::String => lemma_reads_string(),
        Kind::StructuredText => lemma_reads_structured_text(),
        Kind::SwitchType => lemma_reads_switch_type(),
        Kind::Task => lemma_reads_task(),
        Kind::TeamMember => lemma_reads_team_member(),
        Kind::TreeViewPath => lemma_reads_tree_view_path(),
        Kind::TurretPath => lemma_reads_turret_path(),
        Kind::UnitLoadoutArray => lemma_reads_unit_loadout_array(),
        Kind::ParticleArray => lemma_reads_particle_array(),
        Kind::Position => lemma_reads_position(),
        Kind::Position2d => lemma_reads_position2d(),
        Kind::Position3d => lemma_reads_position3d(),
        Kind::Vector => lemma_reads_vector(),
        Kind::Vector2d => lemma_reads_vector2d(),
        Kind::Vector3d => lemma_reads_vector3d(),
        Kind::Waypoint => lemma_reads_waypoint(),
        Kind::WhileType => lemma_reads_while_type(),
        Kind::WithType => lemma_reads_with_type(),
        _ => {},
    }
}



/// The types whose wiki name is their written name without spaces.
pub open spec fn squeezed(k: Kind) -> bool {
    k is UnitLoadoutArray || k is Position2d || k is Position3d || k is Vector2d || k is Vector3d
}

proof fn lemma_only_array_empty_written_so(k: Kind)
    ensures
        kind_text(k) == kind_text(Kind::ArrayEmpty) ==> k == Kind::ArrayEmpty,
{
    reveal_strlit("Array Empty");
    match k {
        Kind::Anything => {
            reveal_strlit("Anything");
            assert("Anything"@.len() != "Array Empty"@.len());
        },
        Kind::ArrayEmpty => {},
        Kind::ArrayDate => {
            reveal_strlit("Array Date");
            assert("Array Date"@.len() != "Array Empty"@.len());
        },
        Kind::ArrayColor => {
            reveal_strlit("Array Color");
            assert("Array Color"@[6] != "Array Empty"@[6]);
        },
        Kind::ArrayColorRgb => {
            reveal_strlit("Array Color RGB");
            assert("Array Color RGB"@.len() != "Array Empty"@.len());
        },
        Kind::ArrayColorRgba => {
            reveal_strlit("Array Color RGBA");
            assert("Array Color RGBA"@.len() != "Array Empty"@.len());
        },
        Kind::ArrayEdenEntities => {
            reveal_strlit("Array Eden Entities");
            assert("Array Eden Entities"@.len() != "Array Empty"@.len());
        },
        Kind::Boolean => {
            reveal_strlit("Boolean");
            assert("Boolean"@.len() != "Array Empty"@.len());
        },
        Kind::Code => {
            reveal_strlit("Code");
            assert("Code"@.len() != "Array Empty"@.len());
        },
        Kind::Config => {
            reveal_strlit("Config");
            assert("Config"@.len() != "Array Empty"@.len());
        },
        Kind::Control => {
            reveal_strlit("Control");
            assert("Control"@.len() != "Array Empty"@.len());
        },
        Kind::DiaryRecord => {
            reveal_strlit("Diary Record");
            assert("Diary Record"@.len() != "Array Empty"@.len());
        },
        Kind::Display => {
            reveal_strlit("Display");
            assert("Display"@.len() != "Array Empty"@.len());
        },
        Kind::EdenEntity => {
            reveal_strlit("Eden Entity");
            assert("Eden Entity"@[0] != "Array Empty"@[0]);
        },
        Kind::EdenID => {
            reveal_strlit("Eden ID");
            assert("Eden ID"@.len() != "Array Empty"@.len());
        },
        Kind::ExceptionHandle => {
            reveal_strlit("Exception Handle");
            assert("Exception Handle"@.len() != "Array Empty"@.len());
        },
        Kind::ForType => {
            reveal_strlit("For Type");
            assert("For Type"@.len() != "Array Empty"@.len());
        },
        Kind::Group => {
            reveal_strlit("Group");
            assert("Group"@.len() != "Array Empty"@.len());
        },
        Kind::HashMapUnknown => {
            reveal_strlit("HashMap Unknown");
            assert("HashMap Unknown"@.len() != "Array Empty"@.len());
        },
        Kind::HashMapKey => {
            reveal_strlit("HashMap Key");
            assert("HashMap Key"@[0] != "Array Empty"@[0]);
        },
        Kind::IfType => {
            reveal_strlit("If Type");
            assert("If Type"@.len() != "Array Empty"@.len());
        },
        Kind::Location => {
            reveal_strlit("Location");
            assert("Location"@.len() != "Array Empty"@.len());
        },
        Kind::Namespace => {
            reveal_strlit("Namespace");
            assert("Namespace"@.len() != "Array Empty"@.len());
        },
        Kind::Nothing => {
            reveal_strlit("Nothing");
            assert("Nothing"@.len() != "Array Empty"@.len());
        },
        Kind::Number => {
            reveal_strlit("Number");
            assert("Number"@.len() != "Array Empty"@.len());
        },
        Kind::Object => {
            reveal_strlit("Object");
            assert("Object"@.len() != "Array Empty"@.len());
        },
        Kind::ScriptHandle => {
            reveal_strlit("Script Handle");
            assert("Script Handle"@.len() != "Array Empty"@.len());
        },
        Kind::Side => {
            reveal_strlit("Side");
            assert("Side"@.len() != "Array Empty"@.len());
        },
        Kind::String => {
            reveal_strlit("String");
            assert("String"@.len() != "Array Empty"@.len());
        },
        Kind::StructuredText => {
            reveal_strlit("Structured Text");
            assert("Structured Text"@.len() != "Array Empty"@.len());
        },
        Kind::SwitchType => {
            reveal_strlit("Switch Type");
            assert("Switch Type"@[0] != "Array Empty"@[0]);
        },
        Kind::Task => {
            reveal_strlit("Task");
            assert("Task"@.len() != "Array Empty"@.len());
        },
        Kind::TeamMember => {
            reveal_strlit("Team Member");
            assert("Team Member"@[0] != "Array Empty"@[0]);
        },
        Kind::Path => {
            reveal_strlit("Path");
            assert("Path"@.len() != "Array Empty"@.len());
        },
        Kind::TreeViewPath => {
            reveal_strlit("Tree View Path");
            assert("Tree View Path"@.len() != "Array Empty"@.len());
        },
        Kind::TurretPath => {
            reveal_strlit("Turret Path");
            assert("Turret Path"@[0] != "Array Empty"@[0]);
        },
        Kind::UnitLoadoutArray => {
            reveal_strlit("Unit Loadout Array");
            assert("Unit Loadout Array"@.len() != "Array Empty"@.len());
        },
        Kind::ParticleArray => {
            reveal_strlit("Particle Array");
            assert("Particle Array"@.len() != "Array Empty"@.len());
        },
        Kind::Position => {
            reveal_strlit("Position");
            assert("Position"@.len() != "Array Empty"@.len());
        },
        Kind::Position2d => {
            reveal_strlit("Position 2D");
            assert("Position 2D"@[0] != "Array Empty"@[0]);
        },
        Kind::Position3d => {
            reveal_strlit("Position 3D");
            assert("Position 3D"@[0] != "Array Empty"@[0]);
        },
        Kind::Position3dASL => {
            reveal_strlit("Position 3D ASL");
            assert("Position 3D ASL"@.len() != "Array Empty"@.len());
        },
        Kind::Position3dASLW => {
            reveal_strlit("Position 3D ASLW");
            assert("Position 3D ASLW"@.len() != "Array Empty"@.len());
        },
        Kind::Position3dATL => {
            reveal_strlit("Position 3D ATL");
            assert("Position 3D ATL"@.len() != "Array Empty"@.len());
        },
        Kind::Position3dAGL => {
            reveal_strlit("Position 3D AGL");
            assert("Position 3D AGL"@.len() != "Array Empty"@.len());
        },
        Kind::Position3dAGLS => {
            reveal_strlit("Position 3D AGLS");
            assert("Position 3D AGLS"@.len() != "Array Empty"@.len());
        },
        Kind::Position3dRelative => {
            reveal_strlit("Position 3D Relative");
            assert("Position 3D Relative"@.len() != "Array Empty"@.len());
        },
        Kind::Position3dWorld => {
            reveal_strlit("Position 3D World");
            assert("Position 3D World"@.len() != "Array Empty"@.len());
        },
        Kind::Vector => {
            reveal_strlit("Vector");
            assert("Vector"@.len() != "Array Empty"@.len());
        },
        Kind::Vector2d => {
            reveal_strlit("Vector 2D");
            assert("Vector 2D"@.len() != "Array Empty"@.len());
        },
        Kind::Vector3d => {
            reveal_strlit("Vector 3D");
            assert("Vector 3D"@.len() != "Array Empty"@.len());
        },
        Kind::Waypoint => {
            reveal_strlit("Waypoint");
            assert("Waypoint"@.len() != "Array Empty"@.len());
        },
        Kind::WhileType => {
            reveal_strlit("While Type");
            assert("While Type"@.len() != "Array Empty"@.len());
        },
        Kind::WithType => {
            reveal_strlit("With Type");
            assert("With Type"@.len() != "Array Empty"@.len());
        },
        Kind::Unknown => {
            reveal_strlit("Unknown");
            assert("Unknown"@.len() != "Array Empty"@.len());
        },
    }
}

proof fn lemma_only_array_date_written_so(k: Kind)
    ensures
        kind_text(k) == kind_text(Kind::ArrayDate) ==> k == Kind::ArrayDate,
{
    reveal_strlit("Array Date");
    match k {
        Kind::Anything => {
            reveal_strlit("Anything");
            assert("Anything"@.len() != "Array Date"@.len());
        },
        Kind::ArrayEmpty => {
            reveal_strlit("Array Empty");
            assert("Array Empty"@.len() != "Array Date"@.len());
        },
        Kind::ArrayDate => {},
        Kind::ArrayColor => {
            reveal_strlit("Array Color");
            assert("Array Color"@.len() != "Array Date"@.len());
        },
        Kind::ArrayColorRgb => {
            reveal_strlit("Array Color RGB");
            assert("Array Color RGB"@.len() != "Array Date"@.len());
        },
        Kind::ArrayColorRgba => {
            reveal_strlit("Array Color RGBA");
            assert("Array Color RGBA"@.len() != "Array Date"@.len());
        },
        Kind::ArrayEdenEntities => {
            reveal_strlit("Array Eden Entities");
            assert("Array Eden Entities"@.len() != "Array Date"@.len());
        },
        Kind::Boolean => {
            reveal_strlit("Boolean");
            assert("Boolean"@.len() != "Array Date"@.len());
        },
        Kind::Code => {
            reveal_strlit("Code");
            assert("Code"@.len() != "Array Date"@.len());
        },
        Kind::Config => {
            reveal_strlit("Config");
            assert("Config"@.len() != "Array Date"@.len());
        },
        Kind::Control => {
            reveal_strlit("Control");
            assert("Control"@.len() != "Array Date"@.len());
        },
        Kind::DiaryRecord => {
            reveal_strlit("Diary Record");
            assert("Diary Record"@.len() != "Array Date"@.len());
        },
        Kind::Display => {
            reveal_strlit("Display");
            assert("Display"@.len() != "Array Date"@.len());
        },
        Kind::EdenEntity => {
            reveal_strlit("Eden Entity");
            assert("Eden Entity"@.len() != "Array Date"@.len());
        },
        Kind::EdenID => {
            reveal_strlit("Eden ID");
            assert("Eden ID"@.len() != "Array Date"@.len());
        },
        Kind::ExceptionHandle => {
            reveal_strlit("Exception Handle");
            assert("Exception Handle"@.len() != "Array Date"@.len());
        },
        Kind::ForType => {
            reveal_strlit("For Type");
            assert("For Type"@.len() != "Array Date"@.len());
        },
        Kind::Group => {
            reveal_strlit("Group");
            assert("Group"@.len() != "Array Date"@.len());
        },
        Kind::HashMapUnknown => {
            reveal_strlit("HashMap Unknown");
            assert("HashMap Unknown"@.len() != "Array Date"@.len());
        },
        Kind::HashMapKey => {
            reveal_strlit("HashMap Key");
            assert("HashMap Key"@.len() != "Array Date"@.len());
        },
        Kind::IfType => {
            reveal_strlit("If Type");
            assert("If Type"@.len() != "Array Date"@.len());
        },
        Kind::Location => {
            reveal_strlit("Location");
            assert("Location"@.len() != "Array Date"@.len());
        },
        Kind::Namespace => {
            reveal_strlit("Namespace");
            assert("Namespace"@.len() != "Array Date"@.len());
        },
        Kind::Nothing => {
            reveal_strlit("Nothing");
            assert("Nothing"@.len() != "Array Date"@.len());
        },
        Kind::Number => {
            reveal_strlit("Number");
            assert("Number"@.len() != "Array Date"@.len());
        },
        Kind::Object => {
            reveal_strlit("Object");
            assert("Object"@.len() != "Array Date"@.len());
        },
        Kind::ScriptHandle => {
            reveal_strlit("Script Handle");
            assert("Script Handle"@.len() != "Array Date"@.len());
        },
        Kind::Side => {
            reveal_strlit("Side");
            assert("Side"@.len() != "Array Date"@.len());
        },
        Kind::String => {
            reveal_strlit("String");
            assert("String"@.len() != "Array Date"@.len());
        },
        Kind::StructuredText => {
            reveal_strlit("Structured Text");
            assert("Structured Text"@.len() != "Array Date"@.len());
        },
        Kind::SwitchType => {
            reveal_strlit("Switch Type");
            assert("Switch Type"@.len() != "Array Date"@.len());
        },
        Kind::Task => {
            reveal_strlit("Task");
            assert("Task"@.len() != "Array Date"@.len());
        },
        Kind::TeamMember => {
            reveal_strlit("Team Member");
            assert("Team Member"@.len() != "Array Date"@.len());
        },
        Kind::Path => {
            reveal_strlit("Path");
            assert("Path"@.len() != "Array Date"@.len());
        },
        Kind::TreeViewPath => {
            reveal_strlit("Tree View Path");
            assert("Tree View Path"@.len() != "Array Date"@.len());
        },
        Kind::TurretPath => {
            reveal_strlit("Turret Path");
            assert("Turret Path"@.len() != "Array Date"@.len());
        },
        Kind::UnitLoadoutArray => {
            reveal_strlit("Unit Loadout Array");
            assert("Unit Loadout Array"@.len() != "Array Date"@.len());
        },
        Kind::ParticleArray => {
            reveal_strlit("Particle Array");
            assert("Particle Array"@.len() != "Array Date"@.len());
        },
        Kind::Position => {
            reveal_strlit("Position");
            assert("Position"@.len() != "Array Date"@.len());
        },
        Kind::Position2d => {
            reveal_strlit("Position 2D");
            assert("Position 2D"@.len() != "Array Date"@.len());
        },
        Kind::Position3d => {
            reveal_strlit("Position 3D");
            assert("Position 3D"@.len() != "Array Date"@.len());
        },
        Kind::Position3dASL => {
            reveal_strlit("Position 3D ASL");
            assert("Position 3D ASL"@.len() != "Array Date"@.len());
        },
        Kind::Position3dASLW => {
            reveal_strlit("Position 3D ASLW");
            assert("Position 3D ASLW"@.len() != "Array Date"@.len());
        },
        Kind::Position3dATL => {
            reveal_strlit("Position 3D ATL");
            assert("Position 3D ATL"@.len() != "Array Date"@.len());
        },
        Kind::Position3dAGL => {
            reveal_strlit("Position 3D AGL");
            assert("Position 3D AGL"@.len() != "Array Date"@.len());
        },
        Kind::Position3dAGLS => {
            reveal_strlit("Position 3D AGLS");
            assert("Position 3D AGLS"@.len() != "Array Date"@.len());
        },
        Kind::Position3dRelative => {
            reveal_strlit("Position 3D Relative");
            assert("Position 3D Relative"@.len() != "Array Date"@.len());
        },
        Kind::Position3dWorld => {
            reveal_strlit("Position 3D World");
            assert("Position 3D World"@.len() != "Array Date"@.len());
        },
        Kind::Vector => {
            reveal_strlit("Vector");
            assert("Vector"@.len() != "Array Date"@.len());
        },
        Kind::Vector2d => {
            reveal_strlit("Vector 2D");
            assert("Vector 2D"@.len() != "Array Date"@.len());
        },
        Kind::Vector3d => {
            reveal_strlit("Vector 3D");
            assert("Vector 3D"@.len() != "Array Date"@.len());
        },
        Kind::Waypoint => {
            reveal_strlit("Waypoint");
            assert("Waypoint"@.len() != "Array Date"@.len());
        },
        Kind::WhileType => {
            reveal_strlit("While Type");
            assert("While Type"@[0] != "Array Date"@[0]);
        },
        Kind::WithType => {
            reveal_strlit("With Type");
            assert("With Type"@.len() != "Array Date"@.len());
        },
        Kind::Unknown => {
            reveal_strlit("Unknown");
            assert("Unknown"@.len() != "Array Date"@.len());
        },
    }
}

proof fn lemma_only_array_color_written_so(k: Kind)
    ensures
        kind_text(k) == kind_text(Kind::ArrayColor) ==> k == Kind::ArrayColor,
{
    reveal_strlit("Array Color");
    match k {
        Kind::Anything => {
            reveal_strlit("Anything");
            assert("Anything"@.len() != "Array Color"@.len());
        },
        Kind::ArrayEmpty => {
            reveal_strlit("Array Empty");
            assert("Array Empty"@[6] != "Array Color"@[6]);
        },
        Kind::ArrayDate => {
            reveal_strlit("Array Date");
            assert("Array Date"@.len() != "Array Color"@.len());
        },
        Kind::ArrayColor => {},
        Kind::ArrayColorRgb => {
            reveal_strlit("Array Color RGB");
            assert("Array Color RGB"@.len() != "Array Color"@.len());
        },
        Kind::ArrayColorRgba => {
            reveal_strlit("Array Color RGBA");
            assert("Array Color RGBA"@.len() != "Array Color"@.len());
        },
        Kind::ArrayEdenEntities => {
            reveal_strlit("Array Eden Entities");
            assert("Array Eden Entities"@.len() != "Array Color"@.len());
        },
        Kind::Boolean => {
            reveal_strlit("Boolean");
            assert("Boolean"@.len() != "Array Color"@.len());
        },
        Kind::Code => {
            reveal_strlit("Code");
            assert("Code"@.len() != "Array Color"@.len());
        },
        Kind::Config => {
            reveal_strlit("Config");
            assert("Config"@.len() != "Array Color"@.len());
        },
        Kind::Control => {
            reveal_strlit("Control");
            assert("Control"@.len() != "Array Color"@.len());
        },
        Kind::DiaryRecord => {
            reveal_strlit("Diary Record");
            assert("Diary Record"@.len() != "Array Color"@.len());
        },
        Kind::Display => {
            reveal_strlit("Display");
            assert("Display"@.len() != "Array Color"@.len());
        },
        Kind::EdenEntity => {
            reveal_strlit("Eden Entity");
            assert("Eden Entity"@[0] != "Array Color"@[0]);
        },
        Kind::EdenID => {
            reveal_strlit("Eden ID");
            assert("Eden ID"@.len() != "Array Color"@.len());
        },
        Kind::ExceptionHandle => {
            reveal_strlit("Exception Handle");
            assert("Exception Handle"@.len() != "Array Color"@.len());
        },
        Kind::ForType => {
            reveal_strlit("For Type");
            assert("For Type"@.len() != "Array Color"@.len());
        },
        Kind::Group => {
            reveal_strlit("Group");
            assert("Group"@.len() != "Array Color"@.len());
        },
        Kind::HashMapUnknown => {
            reveal_strlit("HashMap Unknown");
            assert("HashMap Unknown"@.len() != "Array Color"@.len());
        },
        Kind::HashMapKey => {
            reveal_strlit("HashMap Key");
            assert("HashMap Key"@[0] != "Array Color"@[0]);
        },
        Kind::IfType => {
            reveal_strlit("If Type");
            assert("If Type"@.len() != "Array Color"@.len());
        },
        Kind::Location => {
            reveal_strlit("Location");
            assert("Location"@.len() != "Array Color"@.len());
        },
        Kind::Namespace => {
            reveal_strlit("Namespace");
            assert("Namespace"@.len() != "Array Color"@.len());
        },
        Kind::Nothing => {
            reveal_strlit("Nothing");
            assert("Nothing"@.len() != "Array Color"@.len());
        },
        Kind::Number => {
            reveal_strlit("Number");
            assert("Number"@.len() != "Array Color"@.len());
        },
        Kind::Object => {
            reveal_strlit("Object");
            assert("Object"@.len() != "Array Color"@.len());
        },
        Kind::ScriptHandle => {
            reveal_strlit("Script Handle");
            assert("Script Handle"@.len() != "Array Color"@.len());
        },
        Kind::Side => {
            reveal_strlit("Side");
            assert("Side"@.len() != "Array Color"@.len());
        },
        Kind::String => {
            reveal_strlit("String");
            assert("String"@.len() != "Array Color"@.len());
        },
        Kind::StructuredText => {
            reveal_strlit("Structured Text");
            assert("Structured Text"@.len() != "Array Color"@.len());
        },
        Kind::SwitchType => {
            reveal_strlit("Switch Type");
            assert("Switch Type"@[0] != "Array Color"@[0]);
        },
        Kind::Task => {
            reveal_strlit("Task");
            assert("Task"@.len() != "Array Color"@.len());
        },
        Kind::TeamMember => {
            reveal_strlit("Team Member");
            assert("Team Member"@[0] != "Array Color"@[0]);
        },
        Kind::Path => {
            reveal_strlit("Path");
            assert("Path"@.len() != "Array Color"@.len());
        },
        Kind::TreeViewPath => {
            reveal_strlit("Tree View Path");
            assert("Tree View Path"@.len() != "Array Color"@.len());
        },
        Kind::TurretPath => {
            reveal_strlit("Turret Path");
            assert("Turret Path"@[0] != "Array Color"@[0]);
        },
        Kind::UnitLoadoutArray => {
            reveal_strlit("Unit Loadout Array");
            assert("Unit Loadout Array"@.len() != "Array Color"@.len());
        },
        Kind::ParticleArray => {
            reveal_strlit("Particle Array");
            assert("Particle Array"@.len() != "Array Color"@.len());
        },
        Kind::Position => {
            reveal_strlit("Position");
            assert("Position"@.len() != "Array Color"@.len());
        },
        Kind::Position2d => {
            reveal_strlit("Position 2D");
            assert("Position 2D"@[0] != "Array Color"@[0]);
        },
        Kind::Position3d => {
            reveal_strlit("Position 3D");
            assert("Position 3D"@[0] != "Array Color"@[0]);
        },
        Kind::Position3dASL => {
            reveal_strlit("Position 3D ASL");
            assert("Position 3D ASL"@.len() != "Array Color"@.len());
        },
        Kind::Position3dASLW => {
            reveal_strlit("Position 3D ASLW");
            assert("Position 3D ASLW"@.len() != "Array Color"@.len());
        },
        Kind::Position3dATL => {
            reveal_strlit("Position 3D ATL");
            assert("Position 3D ATL"@.len() != "Array Color"@.len());
        },
        Kind::Position3dAGL => {
            reveal_strlit("Position 3D AGL");
            assert("Position 3D AGL"@.len() != "Array Color"@.len());
        },
        Kind::Position3dAGLS => {
            reveal_strlit("Position 3D AGLS");
            assert("Position 3D AGLS"@.len() != "Array Color"@.len());
        },
        Kind::Position3dRelative => {
            reveal_strlit("Position 3D Relative");
            assert("Position 3D Relative"@.len() != "Array Color"@.len());
        },
        Kind::Position3dWorld => {
            reveal_strlit("Position 3D World");
            assert("Position 3D World"@.len() != "Array Color"@.len());
        },
        Kind::Vector => {
            reveal_strlit("Vector");
            assert("Vector"@.len() != "Array Color"@.len());
        },
        Kind::Vector2d => {
            reveal_strlit("Vector 2D");
            assert("Vector 2D"@.len() != "Array Color"@.len());
        },
        Kind::Vector3d => {
            reveal_strlit("Vector 3D");
            assert("Vector 3D"@.len() != "Array Color"@.len());
        },
        Kind::Waypoint => {
            reveal_strlit("Waypoint");
            assert("Waypoint"@.len() != "Array Color"@.len());
        },
        Kind::WhileType => {
            reveal_strlit("While Type");
            assert("While Type"@.len() != "Array Color"@.len());
        },
        Kind::WithType => {
            reveal_strlit("With Type");
            assert("With Type"@.len() != "Array Color"@.len());
        },
        Kind::Unknown => {
            reveal_strlit("Unknown");
            assert("Unknown"@.len() != "Array Color"@.len());
        },
    }
}

proof fn lemma_only_array_color_rgb_written_so(k: Kind)
    ensures
        kind_text(k) == kind_text(Kind::ArrayColorRgb) ==> k == Kind::ArrayColorRgb,
{
    reveal_strlit("Array Color RGB");
    match k {
        Kind::Anything => {
            reveal_strlit("Anything");
            assert("Anything"@.len() != "Array Color RGB"@.len());
        },
        Kind::ArrayEmpty => {
            reveal_strlit("Array Empty");
            assert("Array Empty"@.len() != "Array Color RGB"@.len());
        },
        Kind::ArrayDate => {
            reveal_strlit("Array Date");
            assert("Array Date"@.len() != "Array Color RGB"@.len());
        },
        Kind::ArrayColor => {
            reveal_strlit("Array Color");
            assert("Array Color"@.len() != "Array Color RGB"@.len());
        },
        Kind::ArrayColorRgb => {},
        Kind::ArrayColorRgba => {
            reveal_strlit("Array Color RGBA");
            assert("Array Color RGBA"@.len() != "Array Color RGB"@.len());
        },
        Kind::ArrayEdenEntities => {
            reveal_strlit("Array Eden Entities");
            assert("Array Eden Entities"@.len() != "Array Color RGB"@.len());
        },
        Kind::Boolean => {
            reveal_strlit("Boolean");
            assert("Boolean"@.len() != "Array Color RGB"@.len());
        },
        Kind::Code => {
            reveal_strlit("Code");
            assert("Code"@.len() != "Array Color RGB"@.len());
        },
        Kind::Config => {
            reveal_strlit("Config");
            assert("Config"@.len() != "Array Color RGB"@.len());
        },
        Kind::Control => {
            reveal_strlit("Control");
            assert("Control"@.len() != "Array Color RGB"@.len());
        },
        Kind::DiaryRecord => {
            reveal_strlit("Diary Record");
            assert("Diary Record"@.len() != "Array Color RGB"@.len());
        },
        Kind::Display => {
            reveal_strlit("Display");
            assert("Display"@.len() != "Array Color RGB"@.len());
        },
        Kind::EdenEntity => {
            reveal_strlit("Eden Entity");
            assert("Eden Entity"@.len() != "Array Color RGB"@.len());
        },
        Kind::EdenID => {
            reveal_strlit("Eden ID");
            assert("Eden ID"@.len() != "Array Color RGB"@.len());
        },
        Kind::ExceptionHandle => {
            reveal_strlit("Exception Handle");
            assert("Exception Handle"@.len() != "Array Color RGB"@.len());
        },
        Kind::ForType => {
            reveal_strlit("For Type");
            assert("For Type"@.len() != "Array Color RGB"@.len());
        },
        Kind::Group => {
            reveal_strlit("Group");
            assert("Group"@.len() != "Array Color RGB"@.len());
        },
        Kind::HashMapUnknown => {
            reveal_strlit("HashMap Unknown");
            assert("HashMap Unknown"@[0] != "Array Color RGB"@[0]);
        },
        Kind::HashMapKey => {
            reveal_strlit("HashMap Key");
            assert("HashMap Key"@.len() != "Array Color RGB"@.len());
        },
        Kind::IfType => {
            reveal_strlit("If Type");
            assert("If Type"@.len() != "Array Color RGB"@.len());
        },
        Kind::Location => {
            reveal_strlit("Location");
            assert("Location"@.len() != "Array Color RGB"@.len());
        },
        Kind::Namespace => {
            reveal_strlit("Namespace");
            assert("Namespace"@.len() != "Array Color RGB"@.len());
        },
        Kind::Nothing => {
            reveal_strlit("Nothing");
            assert("Nothing"@.len() != "Array Color RGB"@.len());
        },
        Kind::Number => {
            reveal_strlit("Number");
            assert("Number"@.len() != "Array Color RGB"@.len());
        },
        Kind::Object => {
            reveal_strlit("Object");
            assert("Object"@.len() != "Array Color RGB"@.len());
        },
        Kind::ScriptHandle => {
            reveal_strlit("Script Handle");
            assert("Script Handle"@.len() != "Array Color RGB"@.len());
        },
        Kind::Side => {
            reveal_strlit("Side");
            assert("Side"@.len() != "Array Color RGB"@.len());
        },
        Kind::String => {
            reveal_strlit("String");
            assert("String"@.len() != "Array Color RGB"@.len());
        },
        Kind::StructuredText => {
            reveal_strlit("Structured Text");
            assert("Structured Text"@[0] != "Array Color RGB"@[0]);
        },
        Kind::SwitchType => {
            reveal_strlit("Switch Type");
            assert("Switch Type"@.len() != "Array Color RGB"@.len());
        },
        Kind::Task => {
            reveal_strlit("Task");
            assert("Task"@.len() != "Array Color RGB"@.len());
        },
        Kind::TeamMember => {
            reveal_strlit("Team Member");
            assert("Team Member"@.len() != "Array Color RGB"@.len());
        },
        Kind::Path => {
            reveal_strlit("Path");
            assert("Path"@.len() != "Array Color RGB"@.len());
        },
        Kind::TreeViewPath => {
            reveal_strlit("Tree View Path");
            assert("Tree View Path"@.len() != "Array Color RGB"@.len());
        },
        Kind::TurretPath => {
            reveal_strlit("Turret Path");
            assert("Turret Path"@.len() != "Array Color RGB"@.len());
        },
        Kind::UnitLoadoutArray => {
            reveal_strlit("Unit Loadout Array");
            assert("Unit Loadout Array"@.len() != "Array Color RGB"@.len());
        },
        Kind::ParticleArray => {
            reveal_strlit("Particle Array");
            assert("Particle Array"@.len() != "Array Color RGB"@.len());
        },
        Kind::Position => {
            reveal_strlit("Position");
            assert("Position"@.len() != "Array Color RGB"@.len());
        },
        Kind::Position2d => {
            reveal_strlit("Position 2D");
            assert("Position 2D"@.len() != "Array Color RGB"@.len());
        },
        Kind::Position3d => {
            reveal_strlit("Position 3D");
            assert("Position 3D"@.len() != "Array Color RGB"@.len());
        },
        Kind::Position3dASL => {
            reveal_strlit("Position 3D ASL");
            assert("Position 3D ASL"@[0] != "Array Color RGB"@[0]);
        },
        Kind::Position3dASLW => {
            reveal_strlit("Position 3D ASLW");
            assert("Position 3D ASLW"@.len() != "Array Color RGB"@.len());
        },
        Kind::Position3dATL => {
            reveal_strlit("Position 3D ATL");
            assert("Position 3D ATL"@[0] != "Array Color RGB"@[0]);
        },
        Kind::Position3dAGL => {
            reveal_strlit("Position 3D AGL");
            assert("Position 3D AGL"@[0] != "Array Color RGB"@[0]);
        },
        Kind::Position3dAGLS => {
            reveal_strlit("Position 3D AGLS");
            assert("Position 3D AGLS"@.len() != "Array Color RGB"@.len());
        },
        Kind::Position3dRelative => {
            reveal_strlit("Position 3D Relative");
            assert("Position 3D Relative"@.len() != "Array Color RGB"@.len());
        },
        Kind::Position3dWorld => {
            reveal_strlit("Position 3D World");
            assert("Position 3D World"@.len() != "Array Color RGB"@.len());
        },
        Kind::Vector => {
            reveal_strlit("Vector");
            assert("Vector"@.len() != "Array Color RGB"@.len());
        },
        Kind::Vector2d => {
            reveal_strlit("Vector 2D");
            assert("Vector 2D"@.len() != "Array Color RGB"@.len());
        },
        Kind::Vector3d => {
            reveal_strlit("Vector 3D");
            assert("Vector 3D"@.len() != "Array Color RGB"@.len());
        },
        Kind::Waypoint => {
            reveal_strlit("Waypoint");
            assert("Waypoint"@.len() != "Array Color RGB"@.len());
        },
        Kind::WhileType => {
            reveal_strlit("While Type");
            assert("While Type"@.len() != "Array Color RGB"@.len());
        },
        Kind::WithType => {
            reveal_strlit("With Type");
            assert("With Type"@.len() != "Array Color RGB"@.len());
        },
        Kind::Unknown => {
            reveal_strlit("Unknown");
            assert("Unknown"@.len() != "Array Color RGB"@.len());
        },
    }
}

proof fn lemma_only_array_color_rgba_written_so(k: Kind)
    ensures
        kind_text(k) == kind_text(Kind::ArrayColorRgba) ==> k == Kind::ArrayColorRgba,
{
    reveal_strlit("Array Color RGBA");
    match k {
        Kind::Anything => {
            reveal_strlit("Anything");
            assert("Anything"@.len() != "Array Color RGBA"@.len());
        },
        Kind::ArrayEmpty => {
            reveal_strlit("Array Empty");
            assert("Array Empty"@.len() != "Array Color RGBA"@.len());
        },
        Kind::ArrayDate => {
            reveal_strlit("Array Date");
            assert("Array Date"@.len() != "Array Color RGBA"@.len());
        },
        Kind::ArrayColor => {
            reveal_strlit("Array Color");
            assert("Array Color"@.len() != "Array Color RGBA"@.len());
        },
        Kind::ArrayColorRgb => {
            reveal_strlit("Array Color RGB");
            assert("Array Color RGB"@.len() != "Array Color RGBA"@.len());
        },
        Kind::ArrayColorRgba => {},
        Kind::ArrayEdenEntities => {
            reveal_strlit("Array Eden Entities");
            assert("Array Eden Entities"@.len() != "Array Color RGBA"@.len());
        },
        Kind::Boolean => {
            reveal_strlit("Boolean");
            assert("Boolean"@.len() != "Array Color RGBA"@.len());
        },
        Kind::Code => {
            reveal_strlit("Code");
            assert("Code"@.len() != "Array Color RGBA"@.len());
        },
        Kind::Config => {
            reveal_strlit("Config");
            assert("Config"@.len() != "Array Color RGBA"@.len());
        },
        Kind::Control => {
            reveal_strlit("Control");
            assert("Control"@.len() != "Array Color RGBA"@.len());
        },
        Kind::DiaryRecord => {
            reveal_strlit("Diary Record");
            assert("Diary Record"@.len() != "Array Color RGBA"@.len());
        },
        Kind::Display => {
            reveal_strlit("Display");
            assert("Display"@.len() != "Array Color RGBA"@.len());
        },
        Kind::EdenEntity => {
            reveal_strlit("Eden Entity");
            assert("Eden Entity"@.len() != "Array Color RGBA"@.len());
        },
        Kind::EdenID => {
            reveal_strlit("Eden ID");
            assert("Eden ID"@.len() != "Array Color RGBA"@.len());
        },
        Kind::ExceptionHandle => {
            reveal_strlit("Exception Handle");
            assert("Exception Handle"@[0] != "Array Color RGBA"@[0]);
        },
        Kind::ForType => {
            reveal_strlit("For Type");
            assert("For Type"@.len() != "Array Color RGBA"@.len());
        },
        Kind::Group => {
            reveal_strlit("Group");
            assert("Group"@.len() != "Array Color RGBA"@.len());
        },
        Kind::HashMapUnknown => {
            reveal_strlit("HashMap Unknown");
            assert("HashMap Unknown"@.len() != "Array Color RGBA"@.len());
        },
        Kind::HashMapKey => {
            reveal_strlit("HashMap Key");
            assert("HashMap Key"@.len() != "Array Color RGBA"@.len());
        },
        Kind::IfType => {
            reveal_strlit("If Type");
            assert("If Type"@.len() != "Array Color RGBA"@.len());
        },
        Kind::Location => {
            reveal_strlit("Location");
            assert("Location"@.len() != "Array Color RGBA"@.len());
        },
        Kind::Namespace => {
            reveal_strlit("Namespace");
            assert("Namespace"@.len() != "Array Color RGBA"@.len());
        },
        Kind::Nothing => {
            reveal_strlit("Nothing");
            assert("Nothing"@.len() != "Array Color RGBA"@.len());
        },
        Kind::Number => {
            reveal_strlit("Number");
            assert("Number"@.len() != "Array Color RGBA"@.len());
        },
        Kind::Object => {
            reveal_strlit("Object");
            assert("Object"@.len() != "Array Color RGBA"@.len());
        },
        Kind::ScriptHandle => {
            reveal_strlit("Script Handle");
            assert("Script Handle"@.len() != "Array Color RGBA"@.len());
        },
        Kind::Side => {
            reveal_strlit("Side");
            assert("Side"@.len() != "Array Color RGBA"@.len());
        },
        Kind::String => {
            reveal_strlit("String");
            assert("String"@.len() != "Array Color RGBA"@.len());
        },
        Kind::StructuredText => {
            reveal_strlit("Structured Text");
            assert("Structured Text"@.len() != "Array Color RGBA"@.len());
        },
        Kind::SwitchType => {
            reveal_strlit("Switch Type");
            assert("Switch Type"@.len() != "Array Color RGBA"@.len());
        },
        Kind::Task => {
            reveal_strlit("Task");
            assert("Task"@.len() != "Array Color RGBA"@.len());
        },
        Kind::TeamMember => {
            reveal_strlit("Team Member");
            assert("Team Member"@.len() != "Array Color RGBA"@.len());
        },
        Kind::Path => {
            reveal_strlit("Path");
            assert("Path"@.len() != "Array Color RGBA"@.len());
        },
        Kind::TreeViewPath => {
            reveal_strlit("Tree View Path");
            assert("Tree View Path"@.len() != "Array Color RGBA"@.len());
        },
        Kind::TurretPath => {
            reveal_strlit("Turret Path");
            assert("Turret Path"@.len() != "Array Color RGBA"@.len());
        },
        Kind::UnitLoadoutArray => {
            reveal_strlit("Unit Loadout Array");
            assert("Unit Loadout Array"@.len() != "Array Color RGBA"@.len());
        },
        Kind::ParticleArray => {
            reveal_strlit("Particle Array");
            assert("Particle Array"@.len() != "Array Color RGBA"@.len());
        },
        Kind::Position => {
            reveal_strlit("Position");
            assert("Position"@.len() != "Array Color RGBA"@.len());
        },
        Kind::Position2d => {
            reveal_strlit("Position 2D");
            assert("Position 2D"@.len() != "Array Color RGBA"@.len());
        },
        Kind::Position3d => {
            reveal_strlit("Position 3D");
            assert("Position 3D"@.len() != "Array Color RGBA"@.len());
        },
        Kind::Position3dASL => {
            reveal_strlit("Position 3D ASL");
            assert("Position 3D ASL"@.len() != "Array Color RGBA"@.len());
        },
        Kind::Position3dASLW => {
            reveal_strlit("Position 3D ASLW");
            assert("Position 3D ASLW"@[0] != "Array Color RGBA"@[0]);
        },
        Kind::Position3dATL => {
            reveal_strlit("Position 3D ATL");
            assert("Position 3D ATL"@.len() != "Array Color RGBA"@.len());
        },
        Kind::Position3dAGL => {
            reveal_strlit("Position 3D AGL");
            assert("Position 3D AGL"@.len() != "Array Color RGBA"@.len());
        },
        Kind::Position3dAGLS => {
            reveal_strlit("Position 3D AGLS");
            assert("Position 3D AGLS"@[0] != "Array Color RGBA"@[0]);
        },
        Kind::Position3dRelative => {
            reveal_strlit("Position 3D Relative");
            assert("Position 3D Relative"@.len() != "Array Color RGBA"@.len());
        },
        Kind::Position3dWorld => {
            reveal_strlit("Position 3D World");
            assert("Position 3D World"@.len() != "Array Color RGBA"@.len());
        },
        Kind::Vector => {
            reveal_strlit("Vector");
            assert("Vector"@.len() != "Array Color RGBA"@.len());
        },
        Kind::Vector2d => {
            reveal_strlit("Vector 2D");
            assert("Vector 2D"@.len() != "Array Color RGBA"@.len());
        },
        Kind::Vector3d => {
            reveal_strlit("Vector 3D");
            assert("Vector 3D"@.len() != "Array Color RGBA"@.len());
        },
        Kind::Waypoint => {
            reveal_strlit("Waypoint");
            assert("Waypoint"@.len() != "Array Color RGBA"@.len());
        },
        Kind::WhileType => {
            reveal_strlit("While Type");
            assert("While Type"@.len() != "Array Color RGBA"@.len());
        },
        Kind::WithType => {
            reveal_strlit("With Type");
            assert("With Type"@.len() != "Array Color RGBA"@.len());
        },
        Kind::Unknown => {
            reveal_strlit("Unknown");
            assert("Unknown"@.len() != "Array Color RGBA"@.len());
        },
    }
}

proof fn lemma_only_array_eden_entities_written_so(k: Kind)
    ensures
        kind_text(k) == kind_text(Kind::ArrayEdenEntities) ==> k == Kind::ArrayEdenEntities,
{
    reveal_strlit("Array Eden Entities");
    match k {
        Kind::Anything => {
            reveal_strlit("Anything");
            assert("Anything"@.len() != "Array Eden Entities"@.len());
        },
        Kind::ArrayEmpty => {
            reveal_strlit("Array Empty");
            assert("Array Empty"@.len() != "Array Eden Entities"@.len());
        },
        Kind::ArrayDate => {
            reveal_strlit("Array Date");
            assert("Array Date"@.len() != "Array Eden Entities"@.len());
        },
        Kind::ArrayColor => {
            reveal_strlit("Array Color");
            assert("Array Color"@.len() != "Array Eden Entities"@.len());
        },
        Kind::ArrayColorRgb => {
            reveal_strlit("Array Color RGB");
            assert("Array Color RGB"@.len() != "Array Eden Entities"@.len());
        },
        Kind::ArrayColorRgba => {
            reveal_strlit("Array Color RGBA");
            assert("Array Color RGBA"@.len() != "Array Eden Entities"@.len());
        },
        Kind::ArrayEdenEntities => {},
        Kind::Boolean => {
            reveal_strlit("Boolean");
            assert("Boolean"@.len() != "Array Eden Entities"@.len());
        },
        Kind::Code => {
            reveal_strlit("Code");
            assert("Code"@.len() != "Array Eden Entities"@.len());
        },
        Kind::Config => {
            reveal_strlit("Config");
            assert("Config"@.len() != "Array Eden Entities"@.len());
        },
        Kind::Control => {
            reveal_strlit("Control");
            assert("Control"@.len() != "Array Eden Entities"@.len());
        },
        Kind::DiaryRecord => {
            reveal_strlit("Diary Record");
            assert("Diary Record"@.len() != "Array Eden Entities"@.len());
        },
        Kind::Display => {
            reveal_strlit("Display");
            assert("Display"@.len() != "Array Eden Entities"@.len());
        },
        Kind::EdenEntity => {
            reveal_strlit("Eden Entity");
            assert("Eden Entity"@.len() != "Array Eden Entities"@.len());
        },
        Kind::EdenID => {
            reveal_strlit("Eden ID");
            assert("Eden ID"@.len() != "Array Eden Entities"@.len());
        },
        Kind::ExceptionHandle => {
            reveal_strlit("Exception Handle");
            assert("Exception Handle"@.len() != "Array Eden Entities"@.len());
        },
        Kind::ForType => {
            reveal_strlit("For Type");
            assert("For Type"@.len() != "Array Eden Entities"@.len());
        },
        Kind::Group => {
            reveal_strlit("Group");
            assert("Group"@.len() != "Array Eden Entities"@.len());
        },
        Kind::HashMapUnknown => {
            reveal_strlit("HashMap Unknown");
            assert("HashMap Unknown"@.len() != "Array Eden Entities"@.len());
        },
        Kind::HashMapKey => {
            reveal_strlit("HashMap Key");
            assert("HashMap Key"@.len() != "Array Eden Entities"@.len());
        },
        Kind::IfType => {
            reveal_strlit("If Type");
            assert("If Type"@.len() != "Array Eden Entities"@.len());
        },
        Kind::Location => {
            reveal_strlit("Location");
            assert("Location"@.len() != "Array Eden Entities"@.len());
        },
        Kind::Namespace => {
            reveal_strlit("Namespace");
            assert("Namespace"@.len() != "Array Eden Entities"@.len());
        },
        Kind::Nothing => {
            reveal_strlit("Nothing");
            assert("Nothing"@.len() != "Array Eden Entities"@.len());
        },
        Kind::Number => {
            reveal_strlit("Number");
            assert("Number"@.len() != "Array Eden Entities"@.len());
        },
        Kind::Object => {
            reveal_strlit("Object");
            assert("Object"@.len() != "Array Eden Entities"@.len());
        },
        Kind::ScriptHandle => {
            reveal_strlit("Script Handle");
            assert("Script Handle"@.len() != "Array Eden Entities"@.len());
        },
        Kind::Side => {
            reveal_strlit("Side");
            assert("Side"@.len() != "Array Eden Entities"@.len());
        },
        Kind::String => {
            reveal_strlit("String");
            assert("String"@.len() != "Array Eden Entities"@.len());
        },
        Kind::StructuredText => {
            reveal_strlit("Structured Text");
            assert("Structured Text"@.len() != "Array Eden Entities"@.len());
        },
        Kind::SwitchType => {
            reveal_strlit("Switch Type");
            assert("Switch Type"@.len() != "Array Eden Entities"@.len());
        },
        Kind::Task => {
            reveal_strlit("Task");
            assert("Task"@.len() != "Array Eden Entities"@.len());
        },
        Kind::TeamMember => {
            reveal_strlit("Team Member");
            assert("Team Member"@.len() != "Array Eden Entities"@.len());
        },
        Kind::Path => {
            reveal_strlit("Path");
            assert("Path"@.len() != "Array Eden Entities"@.len());
        },
        Kind::TreeViewPath => {
            reveal_strlit("Tree View Path");
            assert("Tree View Path"@.len() != "Array Eden Entities"@.len());
        },
        Kind::TurretPath => {
            reveal_strlit("Turret Path");
            assert("Turret Path"@.len() != "Array Eden Entities"@.len());
        },
        Kind::UnitLoadoutArray => {
            reveal_strlit("Unit Loadout Array");
            assert("Unit Loadout Array"@.len() != "Array Eden Entities"@.len());
        },
        Kind::ParticleArray => {
            reveal_strlit("Particle Array");
            assert("Particle Array"@.len() != "Array Eden Entities"@.len());
        },
        Kind::Position => {
            reveal_strlit("Position");
            assert("Position"@.len() != "Array Eden Entities"@.len());
        },
        Kind::Position2d => {
            reveal_strlit("Position 2D");
            assert("Position 2D"@.len() != "Array Eden Entities"@.len());
        },
        Kind::Position3d => {
            reveal_strlit("Position 3D");
            assert("Position 3D"@.len() != "Array Eden Entities"@.len());
        },
        Kind::Position3dASL => {
            reveal_strlit("Position 3D ASL");
            assert("Position 3D ASL"@.len() != "Array Eden Entities"@.len());
        },
        Kind::Position3dASLW => {
            reveal_strlit("Position 3D ASLW");
            assert("Position 3D ASLW"@.len() != "Array Eden Entities"@.len());
        },
        Kind::Position3dATL => {
            reveal_strlit("Position 3D ATL");
            assert("Position 3D ATL"@.len() != "Array Eden Entities"@.len());
        },
        Kind::Position3dAGL => {
            reveal_strlit("Position 3D AGL");
            assert("Position 3D AGL"@.len() != "Array Eden Entities"@.len());
        },
        Kind::Position3dAGLS => {
            reveal_strlit("Position 3D AGLS");
            assert("Position 3D AGLS"@.len() != "Array Eden Entities"@.len());
        },
        Kind::Position3dRelative => {
            reveal_strlit("Position 3D Relative");
            assert("Position 3D Relative"@.len() != "Array Eden Entities"@.len());
        },
        Kind::Position3dWorld => {
            reveal_strlit("Position 3D World");
            assert("Position 3D World"@.len() != "Array Eden Entities"@.len());
        },
        Kind::Vector => {
            reveal_strlit("Vector");
            assert("Vector"@.len() != "Array Eden Entities"@.len());
        },
        Kind::Vector2d => {
            reveal_strlit("Vector 2D");
            assert("Vector 2D"@.len() != "Array Eden Entities"@.len());
        },
        Kind::Vector3d => {
            reveal_strlit("Vector 3D");
            assert("Vector 3D"@.len() != "Array Eden Entities"@.len());
        },
        Kind::Waypoint => {
            reveal_strlit("Waypoint");
            assert("Waypoint"@.len() != "Array Eden Entities"@.len());
        },
        Kind::WhileType => {
            reveal_strlit("While Type");
            assert("While Type"@.len() != "Array Eden Entities"@.len());
        },
        Kind::WithType => {
            reveal_strlit("With Type");
            assert("With Type"@.len() != "Array Eden Entities"@.len());
        },
        Kind::Unknown => {
            reveal_strlit("Unknown");
            assert("Unknown"@.len() != "Array Eden Entities"@.len());
        },
    }
}

proof fn lemma_only_hash_map_unknown_written_so(k: Kind)
    ensures
        kind_text(k) == kind_text(Kind::HashMapUnknown) ==> k == Kind::HashMapUnknown,
{
    reveal_strlit("HashMap Unknown");
    match k {
        Kind::Anything => {
            reveal_strlit("Anything");
            assert("Anything"@.len() != "HashMap Unknown"@.len());
        },
        Kind::ArrayEmpty => {
            reveal_strlit("Array Empty");
            assert("Array Empty"@.len() != "HashMap Unknown"@.len());
        },
        Kind::ArrayDate => {
            reveal_strlit("Array Date");
            assert("Array Date"@.len() != "HashMap Unknown"@.len());
        },
        Kind::ArrayColor => {
            reveal_strlit("Array Color");
            assert("Array Color"@.len() != "HashMap Unknown"@.len());
        },
        Kind::ArrayColorRgb => {
            reveal_strlit("Array Color RGB");
            assert("Array Color RGB"@[0] != "HashMap Unknown"@[0]);
        },
        Kind::ArrayColorRgba => {
            reveal_strlit("Array Color RGBA");
            assert("Array Color RGBA"@.len() != "HashMap Unknown"@.len());
        },
        Kind::ArrayEdenEntities => {
            reveal_strlit("Array Eden Entities");
            assert("Array Eden Entities"@.len() != "HashMap Unknown"@.len());
        },
        Kind::Boolean => {
            reveal_strlit("Boolean");
            assert("Boolean"@.len() != "HashMap Unknown"@.len());
        },
        Kind::Code => {
            reveal_strlit("Code");
            assert("Code"@.len() != "HashMap Unknown"@.len());
        },
        Kind::Config => {
            reveal_strlit("Config");
            assert("Config"@.len() != "HashMap Unknown"@.len());
        },
        Kind::Control => {
            reveal_strlit("Control");
            assert("Control"@.len() != "HashMap Unknown"@.len());
        },
        Kind::DiaryRecord => {
            reveal_strlit("Diary Record");
            assert("Diary Record"@.len() != "HashMap Unknown"@.len());
        },
        Kind::Display => {
            reveal_strlit("Display");
            assert("Display"@.len() != "HashMap Unknown"@.len());
        },
        Kind::EdenEntity => {
            reveal_strlit("Eden Entity");
            assert("Eden Entity"@.len() != "HashMap Unknown"@.len());
        },
        Kind::EdenID => {
            reveal_strlit("Eden ID");
            assert("Eden ID"@.len() != "HashMap Unknown"@.len());
        },
        Kind::ExceptionHandle => {
            reveal_strlit("Exception Handle");
            assert("Exception Handle"@.len() != "HashMap Unknown"@.len());
        },
        Kind::ForType => {
            reveal_strlit("For Type");
            assert("For Type"@.len() != "HashMap Unknown"@.len());
        },
        Kind::Group => {
            reveal_strlit("Group");
            assert("Group"@.len() != "HashMap Unknown"@.len());
        },
        Kind::HashMapUnknown => {},
        Kind::HashMapKey => {
            reveal_strlit("HashMap Key");
            assert("HashMap Key"@.len() != "HashMap Unknown"@.len());
        },
        Kind::IfType => {
            reveal_strlit("If Type");
            assert("If Type"@.len() != "HashMap Unknown"@.len());
        },
        Kind::Location => {
            reveal_strlit("Location");
            assert("Location"@.len() != "HashMap Unknown"@.len());
        },
        Kind::Namespace => {
            reveal_strlit("Namespace");
            assert("Namespace"@.len() != "HashMap Unknown"@.len());
        },
        Kind::Nothing => {
            reveal_strlit("Nothing");
            assert("Nothing"@.len() != "HashMap Unknown"@.len());
        },
        Kind::Number => {
            reveal_strlit("Number");
            assert("Number"@.len() != "HashMap Unknown"@.len());
        },
        Kind::Object => {
            reveal_strlit("Object");
            assert("Object"@.len() != "HashMap Unknown"@.len());
        },
        Kind::ScriptHandle => {
            reveal_strlit("Script Handle");
            assert("Script Handle"@.len() != "HashMap Unknown"@.len());
        },
        Kind::Side => {
            reveal_strlit("Side");
            assert("Side"@.len() != "HashMap Unknown"@.len());
        },
        Kind::String => {
            reveal_strlit("String");
            assert("String"@.len() != "HashMap Unknown"@.len());
        },
        Kind::StructuredText => {
            reveal_strlit("Structured Text");
            assert("Structured Text"@[0] != "HashMap Unknown"@[0]);
        },
        Kind::SwitchType => {
            reveal_strlit("Switch Type");
            assert("Switch Type"@.len() != "HashMap Unknown"@.len());
        },
        Kind::Task => {
            reveal_strlit("Task");
            assert("Task"@.len() != "HashMap Unknown"@.len());
        },
        Kind::TeamMember => {
            reveal_strlit("Team Member");
            assert("Team Member"@.len() != "HashMap Unknown"@.len());
        },
        Kind::Path => {
            reveal_strlit("Path");
            assert("Path"@.len() != "HashMap Unknown"@.len());
        },
        Kind::TreeViewPath => {
            reveal_strlit("Tree View Path");
            assert("Tree View Path"@.len() != "HashMap Unknown"@.len());
        },
        Kind::TurretPath => {
            reveal_strlit("Turret Path");
            assert("Turret Path"@.len() != "HashMap Unknown"@.len());
        },
        Kind::UnitLoadoutArray => {
            reveal_strlit("Unit Loadout Array");
            assert("Unit Loadout Array"@.len() != "HashMap Unknown"@.len());
        },
        Kind::ParticleArray => {
            reveal_strlit("Particle Array");
            assert("Particle Array"@.len() != "HashMap Unknown"@.len());
        },
        Kind::Position => {
            reveal_strlit("Position");
            assert("Position"@.len() != "HashMap Unknown"@.len());
        },
        Kind::Position2d => {
            reveal_strlit("Position 2D");
            assert("Position 2D"@.len() != "HashMap Unknown"@.len());
        },
        Kind::Position3d => {
            reveal_strlit("Position 3D");
            assert("Position 3D"@.len() != "HashMap Unknown"@.len());
        },
        Kind::Position3dASL => {
            reveal_strlit("Position 3D ASL");
            assert("Position 3D ASL"@[0] != "HashMap Unknown"@[0]);
        },
        Kind::Position3dASLW => {
            reveal_strlit("Position 3D ASLW");
            assert("Position 3D ASLW"@.len() != "HashMap Unknown"@.len());
        },
        Kind::Position3dATL => {
            reveal_strlit("Position 3D ATL");
            assert("Position 3D ATL"@[0] != "HashMap Unknown"@[0]);
        },
        Kind::Position3dAGL => {
            reveal_strlit("Position 3D AGL");
            assert("Position 3D AGL"@[0] != "HashMap Unknown"@[0]);
        },
        Kind::Position3dAGLS => {
            reveal_strlit("Position 3D AGLS");
            assert("Position 3D AGLS"@.len() != "HashMap Unknown"@.len());
        },
        Kind::Position3dRelative => {
            reveal_strlit("Position 3D Relative");
            assert("Position 3D Relative"@.len() != "HashMap Unknown"@.len());
        },
        Kind::Position3dWorld => {
            reveal_strlit("Position 3D World");
            assert("Position 3D World"@.len() != "HashMap Unknown"@.len());
        },
        Kind::Vector => {
            reveal_strlit("Vector");
            assert("Vector"@.len() != "HashMap Unknown"@.len());
        },
        Kind::Vector2d => {
            reveal_strlit("Vector 2D");
            assert("Vector 2D"@.len() != "HashMap Unknown"@.len());
        },
        Kind::Vector3d => {
            reveal_strlit("Vector 3D");
            assert("Vector 3D"@.len() != "HashMap Unknown"@.len());
        },
        Kind::Waypoint => {
            reveal_strlit("Waypoint");
            assert("Waypoint"@.len() != "HashMap Unknown"@.len());
        },
        Kind::WhileType => {
            reveal_strlit("While Type");
            assert("While Type"@.len() != "HashMap Unknown"@.len());
        },
        Kind::WithType => {
            reveal_strlit("With Type");
            assert("With Type"@.len() != "HashMap Unknown"@.len());
        },
        Kind::Unknown => {
            reveal_strlit("Unknown");
            assert("Unknown"@.len() != "HashMap Unknown"@.len());
        },
    }
}

proof fn lemma_only_path_written_so(k: Kind)
    ensures
        kind_text(k) == kind_text(Kind::Path) ==> k == Kind::Path,
{
    reveal_strlit("Path");
    match k {
        Kind::Anything => {
            reveal_strlit("Anything");
            assert("Anything"@.len() != "Path"@.len());
        },
        Kind::ArrayEmpty => {
            reveal_strlit("Array Empty");
            assert("Array Empty"@.len() != "Path"@.len());
        },
        Kind::ArrayDate => {
            reveal_strlit("Array Date");
            assert("Array Date"@.len() != "Path"@.len());
        },
        Kind::ArrayColor => {
            reveal_strlit("Array Color");
            assert("Array Color"@.len() != "Path"@.len());
        },
        Kind::ArrayColorRgb => {
            reveal_strlit("Array Color RGB");
            assert("Array Color RGB"@.len() != "Path"@.len());
        },
        Kind::ArrayColorRgba => {
            reveal_strlit("Array Color RGBA");
            assert("Array Color RGBA"@.len() != "Path"@.len());
        },
        Kind::ArrayEdenEntities => {
            reveal_strlit("Array Eden Entities");
            assert("Array Eden Entities"@.len() != "Path"@.len());
        },
        Kind::Boolean => {
            reveal_strlit("Boolean");
            assert("Boolean"@.len() != "Path"@.len());
        },
        Kind::Code => {
            reveal_strlit("Code");
            assert("Code"@[0] != "Path"@[0]);
        },
        Kind::Config => {
            reveal_strlit("Config");
            assert("Config"@.len() != "Path"@.len());
        },
        Kind::Control => {
            reveal_strlit("Control");
            assert("Control"@.len() != "Path"@.len());
        },
        Kind::DiaryRecord => {
            reveal_strlit("Diary Record");
            assert("Diary Record"@.len() != "Path"@.len());
        },
        Kind::Display => {
            reveal_strlit("Display");
            assert("Display"@.len() != "Path"@.len());
        },
        Kind::EdenEntity => {
            reveal_strlit("Eden Entity");
            assert("Eden Entity"@.len() != "Path"@.len());
        },
        Kind::EdenID => {
            reveal_strlit("Eden ID");
            assert("Eden ID"@.len() != "Path"@.len());
        },
        Kind::ExceptionHandle => {
            reveal_strlit("Exception Handle");
            assert("Exception Handle"@.len() != "Path"@.len());
        },
        Kind::ForType => {
            reveal_strlit("For Type");
            assert("For Type"@.len() != "Path"@.len());
        },
        Kind::Group => {
            reveal_strlit("Group");
            assert("Group"@.len() != "Path"@.len());
        },
        Kind::HashMapUnknown => {
            reveal_strlit("HashMap Unknown");
            assert("HashMap Unknown"@.len() != "Path"@.len());
        },
        Kind::HashMapKey => {
            reveal_strlit("HashMap Key");
            assert("HashMap Key"@.len() != "Path"@.len());
        },
        Kind::IfType => {
            reveal_strlit("If Type");
            assert("If Type"@.len() != "Path"@.len());
        },
        Kind::Location => {
            reveal_strlit("Location");
            assert("Location"@.len() != "Path"@.len());
        },
        Kind::Namespace => {
            reveal_strlit("Namespace");
            assert("Namespace"@.len() != "Path"@.len());
        },
        Kind::Nothing => {
            reveal_strlit("Nothing");
            assert("Nothing"@.len() != "Path"@.len());
        },
        Kind::Number => {
            reveal_strlit("Number");
            assert("Number"@.len() != "Path"@.len());
        },
        Kind::Object => {
            reveal_strlit("Object");
            assert("Object"@.len() != "Path"@.len());
        },
        Kind::ScriptHandle => {
            reveal_strlit("Script Handle");
            assert("Script Handle"@.len() != "Path"@.len());
        },
        Kind::Side => {
            reveal_strlit("Side");
            assert("Side"@[0] != "Path"@[0]);
        },
        Kind::String => {
            reveal_strlit("String");
            assert("String"@.len() != "Path"@.len());
        },
        Kind::StructuredText => {
            reveal_strlit("Structured Text");
            assert("Structured Text"@.len() != "Path"@.len());
        },
        Kind::SwitchType => {
            reveal_strlit("Switch Type");
            assert("Switch Type"@.len() != "Path"@.len());
        },
        Kind::Task => {
            reveal_strlit("Task");
            assert("Task"@[0] != "Path"@[0]);
        },
        Kind::TeamMember => {
            reveal_strlit("Team Member");
            assert("Team Member"@.len() != "Path"@.len());
        },
        Kind::Path => {},
        Kind::TreeViewPath => {
            reveal_strlit("Tree View Path");
            assert("Tree View Path"@.len() != "Path"@.len());
        },
        Kind::TurretPath => {
            reveal_strlit("Turret Path");
            assert("Turret Path"@.len() != "Path"@.len());
        },
        Kind::UnitLoadoutArray => {
            reveal_strlit("Unit Loadout Array");
            assert("Unit Loadout Array"@.len() != "Path"@.len());
        },
        Kind::ParticleArray => {
            reveal_strlit("Particle Array");
            assert("Particle Array"@.len() != "Path"@.len());
        },
        Kind::Position => {
            reveal_strlit("Position");
            assert("Position"@.len() != "Path"@.len());
        },
        Kind::Position2d => {
            reveal_strlit("Position 2D");
            assert("Position 2D"@.len() != "Path"@.len());
        },
        Kind::Position3d => {
            reveal_strlit("Position 3D");
            assert("Position 3D"@.len() != "Path"@.len());
        },
        Kind::Position3dASL => {
            reveal_strlit("Position 3D ASL");
            assert("Position 3D ASL"@.len() != "Path"@.len());
        },
        Kind::Position3dASLW => {
            reveal_strlit("Position 3D ASLW");
            assert("Position 3D ASLW"@.len() != "Path"@.len());
        },
        Kind::Position3dATL => {
            reveal_strlit("Position 3D ATL");
            assert("Position 3D ATL"@.len() != "Path"@.len());
        },
        Kind::Position3dAGL => {
            reveal_strlit("Position 3D AGL");
            assert("Position 3D AGL"@.len() != "Path"@.len());
        },
        Kind::Position3dAGLS => {
            reveal_strlit("Position 3D AGLS");
            assert("Position 3D AGLS"@.len() != "Path"@.len());
        },
        Kind::Position3dRelative => {
            reveal_strlit("Position 3D Relative");
            assert("Position 3D Relative"@.len() != "Path"@.len());
        },
        Kind::Position3dWorld => {
            reveal_strlit("Position 3D World");
            assert("Position 3D World"@.len() != "Path"@.len());
        },
        Kind::Vector => {
            reveal_strlit("Vector");
            assert("Vector"@.len() != "Path"@.len());
        },
        Kind::Vector2d => {
            reveal_strlit("Vector 2D");
            assert("Vector 2D"@.len() != "Path"@.len());
        },
        Kind::Vector3d => {
            reveal_strlit("Vector 3D");
            assert("Vector 3D"@.len() != "Path"@.len());
        },
        Kind::Waypoint => {
            reveal_strlit("Waypoint");
            assert("Waypoint"@.len() != "Path"@.len());
        },
        Kind::WhileType => {
            reveal_strlit("While Type");
            assert("While Type"@.len() != "Path"@.len());
        },
        Kind::WithType => {
            reveal_strlit("With Type");
            assert("With Type"@.len() != "Path"@.len());
        },
        Kind::Unknown => {
            reveal_strlit("Unknown");
            assert("Unknown"@.len() != "Path"@.len());
        },
    }
}

proof fn lemma_only_unit_loadout_array_written_so(k: Kind)
    ensures
        kind_text(k) == kind_text(Kind::UnitLoadoutArray) ==> k == Kind::UnitLoadoutArray,
{
    reveal_strlit("Unit Loadout Array");
    match k {
        Kind::Anything => {
            reveal_strlit("Anything");
            assert("Anything"@.len() != "Unit Loadout Array"@.len());
        },
        Kind::ArrayEmpty => {
            reveal_strlit("Array Empty");
            assert("Array Empty"@.len() != "Unit Loadout Array"@.len());
        },
        Kind::ArrayDate => {
            reveal_strlit("Array Date");
            assert("Array Date"@.len() != "Unit Loadout Array"@.len());
        },
        Kind::ArrayColor => {
            reveal_strlit("Array Color");
            assert("Array Color"@.len() != "Unit Loadout Array"@.len());
        },
        Kind::ArrayColorRgb => {
            reveal_strlit("Array Color RGB");
            assert("Array Color RGB"@.len() != "Unit Loadout Array"@.len());
        },
        Kind::ArrayColorRgba => {
            reveal_strlit("Array Color RGBA");
            assert("Array Color RGBA"@.len() != "Unit Loadout Array"@.len());
        },
        Kind::ArrayEdenEntities => {
            reveal_strlit("Array Eden Entities");
            assert("Array Eden Entities"@.len() != "Unit Loadout Array"@.len());
        },
        Kind::Boolean => {
            reveal_strlit("Boolean");
            assert("Boolean"@.len() != "Unit Loadout Array"@.len());
        },
        Kind::Code => {
            reveal_strlit("Code");
            assert("Code"@.len() != "Unit Loadout Array"@.len());
        },
        Kind::Config => {
            reveal_strlit("Config");
            assert("Config"@.len() != "Unit Loadout Array"@.len());
        },
        Kind::Control => {
            reveal_strlit("Control");
            assert("Control"@.len() != "Unit Loadout Array"@.len());
        },
        Kind::DiaryRecord => {
            reveal_strlit("Diary Record");
            assert("Diary Record"@.len() != "Unit Loadout Array"@.len());
        },
        Kind::Display => {
            reveal_strlit("Display");
            assert("Display"@.len() != "Unit Loadout Array"@.len());
        },
        Kind::EdenEntity => {
            reveal_strlit("Eden Entity");
            assert("Eden Entity"@.len() != "Unit Loadout Array"@.len());
        },
        Kind::EdenID => {
            reveal_strlit("Eden ID");
            assert("Eden ID"@.len() != "Unit Loadout Array"@.len());
        },
        Kind::ExceptionHandle => {
            reveal_strlit("Exception Handle");
            assert("Exception Handle"@.len() != "Unit Loadout Array"@.len());
        },
        Kind::ForType => {
            reveal_strlit("For Type");
            assert("For Type"@.len() != "Unit Loadout Array"@.len());
        },
        Kind::Group => {
            reveal_strlit("Group");
            assert("Group"@.len() != "Unit Loadout Array"@.len());
        },
        Kind::HashMapUnknown => {
            reveal_strlit("HashMap Unknown");
            assert("HashMap Unknown"@.len() != "Unit Loadout Array"@.len());
        },
        Kind::HashMapKey => {
            reveal_strlit("HashMap Key");
            assert("HashMap Key"@.len() != "Unit Loadout Array"@.len());
        },
        Kind::IfType => {
            reveal_strlit("If Type");
            assert("If Type"@.len() != "Unit Loadout Array"@.len());
        },
        Kind::Location => {
            reveal_strlit("Location");
            assert("Location"@.len() != "Unit Loadout Array"@.len());
        },
        Kind::Namespace => {
            reveal_strlit("Namespace");
            assert("Namespace"@.len() != "Unit Loadout Array"@.len());
        },
        Kind::Nothing => {
            reveal_strlit("Nothing");
            assert("Nothing"@.len() != "Unit Loadout Array"@.len());
        },
        Kind::Number => {
            reveal_strlit("Number");
            assert("Number"@.len() != "Unit Loadout Array"@.len());
        },
        Kind::Object => {
            reveal_strlit("Object");
            assert("Object"@.len() != "Unit Loadout Array"@.len());
        },
        Kind::ScriptHandle => {
            reveal_strlit("Script Handle");
            assert("Script Handle"@.len() != "Unit Loadout Array"@.len());
        },
        Kind::Side => {
            reveal_strlit("Side");
            assert("Side"@.len() != "Unit Loadout Array"@.len());
        },
        Kind::String => {
            reveal_strlit("String");
            assert("String"@.len() != "Unit Loadout Array"@.len());
        },
        Kind::StructuredText => {
            reveal_strlit("Structured Text");
            assert("Structured Text"@.len() != "Unit Loadout Array"@.len());
        },
        Kind::SwitchType => {
            reveal_strlit("Switch Type");
            assert("Switch Type"@.len() != "Unit Loadout Array"@.len());
        },
        Kind::Task => {
            reveal_strlit("Task");
            assert("Task"@.len() != "Unit Loadout Array"@.len());
        },
        Kind::TeamMember => {
            reveal_strlit("Team Member");
            assert("Team Member"@.len() != "Unit Loadout Array"@.len());
        },
        Kind::Path => {
            reveal_strlit("Path");
            assert("Path"@.len() != "Unit Loadout Array"@.len());
        },
        Kind::TreeViewPath => {
            reveal_strlit("Tree View Path");
            assert("Tree View Path"@.len() != "Unit Loadout Array"@.len());
        },
        Kind::TurretPath => {
            reveal_strlit("Turret Path");
            assert("Turret Path"@.len() != "Unit Loadout Array"@.len());
        },
        Kind::UnitLoadoutArray => {},
        Kind::ParticleArray => {
            reveal_strlit("Particle Array");
            assert("Particle Array"@.len() != "Unit Loadout Array"@.len());
        },
        Kind::Position => {
            reveal_strlit("Position");
            assert("Position"@.len() != "Unit Loadout Array"@.len());
        },
        Kind::Position2d => {
            reveal_strlit("Position 2D");
            assert("Position 2D"@.len() != "Unit Loadout Array"@.len());
        },
        Kind::Position3d => {
            reveal_strlit("Position 3D");
            assert("Position 3D"@.len() != "Unit Loadout Array"@.len());
        },
        Kind::Position3dASL => {
            reveal_strlit("Position 3D ASL");
            assert("Position 3D ASL"@.len() != "Unit Loadout Array"@.len());
        },
        Kind::Position3dASLW => {
            reveal_strlit("Position 3D ASLW");
            assert("Position 3D ASLW"@.len() != "Unit Loadout Array"@.len());
        },
        Kind::Position3dATL => {
            reveal_strlit("Position 3D ATL");
            assert("Position 3D ATL"@.len() != "Unit Loadout Array"@.len());
        },
        Kind::Position3dAGL => {
            reveal_strlit("Position 3D AGL");
            assert("Position 3D AGL"@.len() != "Unit Loadout Array"@.len());
        },
        Kind::Position3dAGLS => {
            reveal_strlit("Position 3D AGLS");
            assert("Position 3D AGLS"@.len() != "Unit Loadout Array"@.len());
        },
        Kind::Position3dRelative => {
            reveal_strlit("Position 3D Relative");
            assert("Position 3D Relative"@.len() != "Unit Loadout Array"@.len());
        },
        Kind::Position3dWorld => {
            reveal_strlit("Position 3D World");
            assert("Position 3D World"@.len() != "Unit Loadout Array"@.len());
        },
        Kind::Vector => {
            reveal_strlit("Vector");
            assert("Vector"@.len() != "Unit Loadout Array"@.len());
        },
        Kind::Vector2d => {
            reveal_strlit("Vector 2D");
            assert("Vector 2D"@.len() != "Unit Loadout Array"@.len());
        },
        Kind::Vector3d => {
            reveal_strlit("Vector 3D");
            assert("Vector 3D"@.len() != "Unit Loadout Array"@.len());
        },
        Kind::Waypoint => {
            reveal_strlit("Waypoint");
            assert("Waypoint"@.len() != "Unit Loadout Array"@.len());
        },
        Kind::WhileType => {
            reveal_strlit("While Type");
            assert("While Type"@.len() != "Unit Loadout Array"@.len());
        },
        Kind::WithType => {
            reveal_strlit("With Type");
            assert("With Type"@.len() != "Unit Loadout Array"@.len());
        },
        Kind::Unknown => {
            reveal_strlit("Unknown");
            assert("Unknown"@.len() != "Unit Loadout Array"@.len());
        },
    }
}

proof fn lemma_only_position2d_written_so(k: Kind)
    ensures
        kind_text(k) == kind_text(Kind::Position2d) ==> k == Kind::Position2d,
{
    reveal_strlit("Position 2D");
    match k {
        Kind::Anything => {
            reveal_strlit("Anything");
            assert("Anything"@.len() != "Position 2D"@.len());
        },
        Kind::ArrayEmpty => {
            reveal_strlit("Array Empty");
            assert("Array Empty"@[0] != "Position 2D"@[0]);
        },
        Kind::ArrayDate => {
            reveal_strlit("Array Date");
            assert("Array Date"@.len() != "Position 2D"@.len());
        },
        Kind::ArrayColor => {
            reveal_strlit("Array Color");
            assert("Array Color"@[0] != "Position 2D"@[0]);
        },
        Kind::ArrayColorRgb => {
            reveal_strlit("Array Color RGB");
            assert("Array Color RGB"@.len() != "Position 2D"@.len());
        },
        Kind::ArrayColorRgba => {
            reveal_strlit("Array Color RGBA");
            assert("Array Color RGBA"@.len() != "Position 2D"@.len());
        },
        Kind::ArrayEdenEntities => {
            reveal_strlit("Array Eden Entities");
            assert("Array Eden Entities"@.len() != "Position 2D"@.len());
        },
        Kind::Boolean => {
            reveal_strlit("Boolean");
            assert("Boolean"@.len() != "Position 2D"@.len());
        },
        Kind::Code => {
            reveal_strlit("Code");
            assert("Code"@.len() != "Position 2D"@.len());
        },
        Kind::Config => {
            reveal_strlit("Config");
            assert("Config"@.len() != "Position 2D"@.len());
        },
        Kind::Control => {
            reveal_strlit("Control");
            assert("Control"@.len() != "Position 2D"@.len());
        },
        Kind::DiaryRecord => {
            reveal_strlit("Diary Record");
            assert("Diary Record"@.len() != "Position 2D"@.len());
        },
        Kind::Display => {
            reveal_strlit("Display");
            assert("Display"@.len() != "Position 2D"@.len());
        },
        Kind::EdenEntity => {
            reveal_strlit("Eden Entity");
            assert("Eden Entity"@[0] != "Position 2D"@[0]);
        },
        Kind::EdenID => {
            reveal_strlit("Eden ID");
            assert("Eden ID"@.len() != "Position 2D"@.len());
        },
        Kind::ExceptionHandle => {
            reveal_strlit("Exception Handle");
            assert("Exception Handle"@.len() != "Position 2D"@.len());
        },
        Kind::ForType => {
            reveal_strlit("For Type");
            assert("For Type"@.len() != "Position 2D"@.len());
        },
        Kind::Group => {
            reveal_strlit("Group");
            assert("Group"@.len() != "Position 2D"@.len());
        },
        Kind::HashMapUnknown => {
            reveal_strlit("HashMap Unknown");
            assert("HashMap Unknown"@.len() != "Position 2D"@.len());
        },
        Kind::HashMapKey => {
            reveal_strlit("HashMap Key");
            assert("HashMap Key"@[0] != "Position 2D"@[0]);
        },
        Kind::IfType => {
            reveal_strlit("If Type");
            assert("If Type"@.len() != "Position 2D"@.len());
        },
        Kind::Location => {
            reveal_strlit("Location");
            assert("Location"@.len() != "Position 2D"@.len());
        },
        Kind::Namespace => {
            reveal_strlit("Namespace");
            assert("Namespace"@.len() != "Position 2D"@.len());
        },
        Kind::Nothing => {
            reveal_strlit("Nothing");
            assert("Nothing"@.len() != "Position 2D"@.len());
        },
        Kind::Number => {
            reveal_strlit("Number");
            assert("Number"@.len() != "Position 2D"@.len());
        },
        Kind::Object => {
            reveal_strlit("Object");
            assert("Object"@.len() != "Position 2D"@.len());
        },
        Kind::ScriptHandle => {
            reveal_strlit("Script Handle");
            assert("Script Handle"@.len() != "Position 2D"@.len());
        },
        Kind::Side => {
            reveal_strlit("Side");
            assert("Side"@.len() != "Position 2D"@.len());
        },
        Kind::String => {
            reveal_strlit("String");
            assert("String"@.len() != "Position 2D"@.len());
        },
        Kind::StructuredText => {
            reveal_strlit("Structured Text");
            assert("Structured Text"@.len() != "Position 2D"@.len());
        },
        Kind::SwitchType => {
            reveal_strlit("Switch Type");
            assert("Switch Type"@[0] != "Position 2D"@[0]);
        },
        Kind::Task => {
            reveal_strlit("Task");
            assert("Task"@.len() != "Position 2D"@.len());
        },
        Kind::TeamMember => {
            reveal_strlit("Team Member");
            assert("Team Member"@[0] != "Position 2D"@[0]);
        },
        Kind::Path => {
            reveal_strlit("Path");
            assert("Path"@.len() != "Position 2D"@.len());
        },
        Kind::TreeViewPath => {
            reveal_strlit("Tree View Path");
            assert("Tree View Path"@.len() != "Position 2D"@.len());
        },
        Kind::TurretPath => {
            reveal_strlit("Turret Path");
            assert("Turret Path"@[0] != "Position 2D"@[0]);
        },
        Kind::UnitLoadoutArray => {
            reveal_strlit("Unit Loadout Array");
            assert("Unit Loadout Array"@.len() != "Position 2D"@.len());
        },
        Kind::ParticleArray => {
            reveal_strlit("Particle Array");
            assert("Particle Array"@.len() != "Position 2D"@.len());
        },
        Kind::Position => {
            reveal_strlit("Position");
            assert("Position"@.len() != "Position 2D"@.len());
        },
        Kind::Position2d => {},
        Kind::Position3d => {
            reveal_strlit("Position 3D");
            assert("Position 3D"@[9] != "Position 2D"@[9]);
        },
        Kind::Position3dASL => {
            reveal_strlit("Position 3D ASL");
            assert("Position 3D ASL"@.len() != "Position 2D"@.len());
        },
        Kind::Position3dASLW => {
            reveal_strlit("Position 3D ASLW");
            assert("Position 3D ASLW"@.len() != "Position 2D"@.len());
        },
        Kind::Position3dATL => {
            reveal_strlit("Position 3D ATL");
            assert("Position 3D ATL"@.len() != "Position 2D"@.len());
        },
        Kind::Position3dAGL => {
            reveal_strlit("Position 3D AGL");
            assert("Position 3D AGL"@.len() != "Position 2D"@.len());
        },
        Kind::Position3dAGLS => {
            reveal_strlit("Position 3D AGLS");
            assert("Position 3D AGLS"@.len() != "Position 2D"@.len());
        },
        Kind::Position3dRelative => {
            reveal_strlit("Position 3D Relative");
            assert("Position 3D Relative"@.len() != "Position 2D"@.len());
        },
        Kind::Position3dWorld => {
            reveal_strlit("Position 3D World");
            assert("Position 3D World"@.len() != "Position 2D"@.len());
        },
        Kind::Vector => {
            reveal_strlit("Vector");
            assert("Vector"@.len() != "Position 2D"@.len());
        },
        Kind::Vector2d => {
            reveal_strlit("Vector 2D");
            assert("Vector 2D"@.len() != "Position 2D"@.len());
        },
        Kind::Vector3d => {
            reveal_strlit("Vector 3D");
            assert("Vector 3D"@.len() != "Position 2D"@.len());
        },
        Kind::Waypoint => {
            reveal_strlit("Waypoint");
            assert("Waypoint"@.len() != "Position 2D"@.len());
        },
        Kind::WhileType => {
            reveal_strlit("While Type");
            assert("While Type"@.len() != "Position 2D"@.len());
        },
        Kind::WithType => {
            reveal_strlit("With Type");
            assert("With Type"@.len() != "Position 2D"@.len());
        },
        Kind::Unknown => {
            reveal_strlit("Unknown");
            assert("Unknown"@.len() != "Position 2D"@.len());
        },
    }
}

proof fn lemma_only_position3d_written_so(k: Kind)
    ensures
        kind_text(k) == kind_text(Kind::Position3d) ==> k == Kind::Position3d,
{
    reveal_strlit("Position 3D");
    match k {
        Kind::Anything => {
            reveal_strlit("Anything");
            assert("Anything"@.len() != "Position 3D"@.len());
        },
        Kind::ArrayEmpty => {
            reveal_strlit("Array Empty");
            assert("Array Empty"@[0] != "Position 3D"@[0]);
        },
        Kind::ArrayDate => {
            reveal_strlit("Array Date");
            assert("Array Date"@.len() != "Position 3D"@.len());
        },
        Kind::ArrayColor => {
            reveal_strlit("Array Color");
            assert("Array Color"@[0] != "Position 3D"@[0]);
        },
        Kind::ArrayColorRgb => {
            reveal_strlit("Array Color RGB");
            assert("Array Color RGB"@.len() != "Position 3D"@.len());
        },
        Kind::ArrayColorRgba => {
            reveal_strlit("Array Color RGBA");
            assert("Array Color RGBA"@.len() != "Position 3D"@.len());
        },
        Kind::ArrayEdenEntities => {
            reveal_strlit("Array Eden Entities");
            assert("Array Eden Entities"@.len() != "Position 3D"@.len());
        },
        Kind::Boolean => {
            reveal_strlit("Boolean");
            assert("Boolean"@.len() != "Position 3D"@.len());
        },
        Kind::Code => {
            reveal_strlit("Code");
            assert("Code"@.len() != "Position 3D"@.len());
        },
        Kind::Config => {
            reveal_strlit("Config");
            assert("Config"@.len() != "Position 3D"@.len());
        },
        Kind::Control => {
            reveal_strlit("Control");
            assert("Control"@.len() != "Position 3D"@.len());
        },
        Kind::DiaryRecord => {
            reveal_strlit("Diary Record");
            assert("Diary Record"@.len() != "Position 3D"@.len());
        },
        Kind::Display => {
            reveal_strlit("Display");
            assert("Display"@.len() != "Position 3D"@.len());
        },
        Kind::EdenEntity => {
            reveal_strlit("Eden Entity");
            assert("Eden Entity"@[0] != "Position 3D"@[0]);
        },
        Kind::EdenID => {
            reveal_strlit("Eden ID");
            assert("Eden ID"@.len() != "Position 3D"@.len());
        },
        Kind::ExceptionHandle => {
            reveal_strlit("Exception Handle");
            assert("Exception Handle"@.len() != "Position 3D"@.len());
        },
        Kind::ForType => {
            reveal_strlit("For Type");
            assert("For Type"@.len() != "Position 3D"@.len());
        },
        Kind::Group => {
            reveal_strlit("Group");
            assert("Group"@.len() != "Position 3D"@.len());
        },
        Kind::HashMapUnknown => {
            reveal_strlit("HashMap Unknown");
            assert("HashMap Unknown"@.len() != "Position 3D"@.len());
        },
        Kind::HashMapKey => {
            reveal_strlit("HashMap Key");
            assert("HashMap Key"@[0] != "Position 3D"@[0]);
        },
        Kind::IfType => {
            reveal_strlit("If Type");
            assert("If Type"@.len() != "Position 3D"@.len());
        },
        Kind::Location => {
            reveal_strlit("Location");
            assert("Location"@.len() != "Position 3D"@.len());
        },
        Kind::Namespace => {
            reveal_strlit("Namespace");
            assert("Namespace"@.len() != "Position 3D"@.len());
        },
        Kind::Nothing => {
            reveal_strlit("Nothing");
            assert("Nothing"@.len() != "Position 3D"@.len());
        },
        Kind::Number => {
            reveal_strlit("Number");
            assert("Number"@.len() != "Position 3D"@.len());
        },
        Kind::Object => {
            reveal_strlit("Object");
            assert("Object"@.len() != "Position 3D"@.len());
        },
        Kind::ScriptHandle => {
            reveal_strlit("Script Handle");
            assert("Script Handle"@.len() != "Position 3D"@.len());
        },
        Kind::Side => {
            reveal_strlit("Side");
            assert("Side"@.len() != "Position 3D"@.len());
        },
        Kind::String => {
            reveal_strlit("String");
            assert("String"@.len() != "Position 3D"@.len());
        },
        Kind::StructuredText => {
            reveal_strlit("Structured Text");
            assert("Structured Text"@.len() != "Position 3D"@.len());
        },
        Kind::SwitchType => {
            reveal_strlit("Switch Type");
            assert("Switch Type"@[0] != "Position 3D"@[0]);
        },
        Kind::Task => {
            reveal_strlit("Task");
            assert("Task"@.len() != "Position 3D"@.len());
        },
        Kind::TeamMember => {
            reveal_strlit("Team Member");
            assert("Team Member"@[0] != "Position 3D"@[0]);
        },
        Kind::Path => {
            reveal_strlit("Path");
            assert("Path"@.len() != "Position 3D"@.len());
        },
        Kind::TreeViewPath => {
            reveal_strlit("Tree View Path");
            assert("Tree View Path"@.len() != "Position 3D"@.len());
        },
        Kind::TurretPath => {
            reveal_strlit("Turret Path");
            assert("Turret Path"@[0] != "Position 3D"@[0]);
        },
        Kind::UnitLoadoutArray => {
            reveal_strlit("Unit Loadout Array");
            assert("Unit Loadout Array"@.len() != "Position 3D"@.len());
        },
        Kind::ParticleArray => {
            reveal_strlit("Particle Array");
            assert("Particle Array"@.len() != "Position 3D"@.len());
        },
        Kind::Position => {
            reveal_strlit("Position");
            assert("Position"@.len() != "Position 3D"@.len());
        },
        Kind::Position2d => {
            reveal_strlit("Position 2D");
            assert("Position 2D"@[9] != "Position 3D"@[9]);
        },
        Kind::Position3d => {},
        Kind::Position3dASL => {
            reveal_strlit("Position 3D ASL");
            assert("Position 3D ASL"@.len() != "Position 3D"@.len());
        },
        Kind::Position3dASLW => {
            reveal_strlit("Position 3D ASLW");
            assert("Position 3D ASLW"@.len() != "Position 3D"@.len());
        },
        Kind::Position3dATL => {
            reveal_strlit("Position 3D ATL");
            assert("Position 3D ATL"@.len() != "Position 3D"@.len());
        },
        Kind::Position3dAGL => {
            reveal_strlit("Position 3D AGL");
            assert("Position 3D AGL"@.len() != "Position 3D"@.len());
        },
        Kind::Position3dAGLS => {
            reveal_strlit("Position 3D AGLS");
            assert("Position 3D AGLS"@.len() != "Position 3D"@.len());
        },
        Kind::Position3dRelative => {
            reveal_strlit("Position 3D Relative");
            assert("Position 3D Relative"@.len() != "Position 3D"@.len());
        },
        Kind::Position3dWorld => {
            reveal_strlit("Position 3D World");
            assert("Position 3D World"@.len() != "Position 3D"@.len());
        },
        Kind::Vector => {
            reveal_strlit("Vector");
            assert("Vector"@.len() != "Position 3D"@.len());
        },
        Kind::Vector2d => {
            reveal_strlit("Vector 2D");
            assert("Vector 2D"@.len() != "Position 3D"@.len());
        },
        Kind::Vector3d => {
            reveal_strlit("Vector 3D");
            assert("Vector 3D"@.len() != "Position 3D"@.len());
        },
        Kind::Waypoint => {
            reveal_strlit("Waypoint");
            assert("Waypoint"@.len() != "Position 3D"@.len());
        },
        Kind::WhileType => {
            reveal_strlit("While Type");
            assert("While Type"@.len() != "Position 3D"@.len());
        },
        Kind::WithType => {
            reveal_strlit("With Type");
            assert("With Type"@.len() != "Position 3D"@.len());
        },
        Kind::Unknown => {
            reveal_strlit("Unknown");
            assert("Unknown"@.len() != "Position 3D"@.len());
        },
    }
}

proof fn lemma_only_position3d_a_s_l_written_so(k: Kind)
    ensures
        kind_text(k) == kind_text(Kind::Position3dASL) ==> k == Kind::Position3dASL,
{
    reveal_strlit("Position 3D ASL");
    match k {
        Kind::Anything => {
            reveal_strlit("Anything");
            assert("Anything"@.len() != "Position 3D ASL"@.len());
        },
        Kind::ArrayEmpty => {
            reveal_strlit("Array Empty");
            assert("Array Empty"@.len() != "Position 3D ASL"@.len());
        },
        Kind::ArrayDate => {
            reveal_strlit("Array Date");
            assert("Array Date"@.len() != "Position 3D ASL"@.len());
        },
        Kind::ArrayColor => {
            reveal_strlit("Array Color");
            assert("Array Color"@.len() != "Position 3D ASL"@.len());
        },
        Kind::ArrayColorRgb => {
            reveal_strlit("Array Color RGB");
            assert("Array Color RGB"@[0] != "Position 3D ASL"@[0]);
        },
        Kind::ArrayColorRgba => {
            reveal_strlit("Array Color RGBA");
            assert("Array Color RGBA"@.len() != "Position 3D ASL"@.len());
        },
        Kind::ArrayEdenEntities => {
            reveal_strlit("Array Eden Entities");
            assert("Array Eden Entities"@.len() != "Position 3D ASL"@.len());
        },
        Kind::Boolean => {
            reveal_strlit("Boolean");
            assert("Boolean"@.len() != "Position 3D ASL"@.len());
        },
        Kind::Code => {
            reveal_strlit("Code");
            assert("Code"@.len() != "Position 3D ASL"@.len());
        },
        Kind::Config => {
            reveal_strlit("Config");
            assert("Config"@.len() != "Position 3D ASL"@.len());
        },
        Kind::Control => {
            reveal_strlit("Control");
            assert("Control"@.len() != "Position 3D ASL"@.len());
        },
        Kind::DiaryRecord => {
            reveal_strlit("Diary Record");
            assert("Diary Record"@.len() != "Position 3D ASL"@.len());
        },
        Kind::Display => {
            reveal_strlit("Display");
            assert("Display"@.len() != "Position 3D ASL"@.len());
        },
        Kind::EdenEntity => {
            reveal_strlit("Eden Entity");
            assert("Eden Entity"@.len() != "Position 3D ASL"@.len());
        },
        Kind::EdenID => {
            reveal_strlit("Eden ID");
            assert("Eden ID"@.len() != "Position 3D ASL"@.len());
        },
        Kind::ExceptionHandle => {
            reveal_strlit("Exception Handle");
            assert("Exception Handle"@.len() != "Position 3D ASL"@.len());
        },
        Kind::ForType => {
            reveal_strlit("For Type");
            assert("For Type"@.len() != "Position 3D ASL"@.len());
        },
        Kind::Group => {
            reveal_strlit("Group");
            assert("Group"@.len() != "Position 3D ASL"@.len());
        },
        Kind::HashMapUnknown => {
            reveal_strlit("HashMap Unknown");
            assert("HashMap Unknown"@[0] != "Position 3D ASL"@[0]);
        },
        Kind::HashMapKey => {
            reveal_strlit("HashMap Key");
            assert("HashMap Key"@.len() != "Position 3D ASL"@.len());
        },
        Kind::IfType => {
            reveal_strlit("If Type");
            assert("If Type"@.len() != "Position 3D ASL"@.len());
        },
        Kind::Location => {
            reveal_strlit("Location");
            assert("Location"@.len() != "Position 3D ASL"@.len());
        },
        Kind::Namespace => {
            reveal_strlit("Namespace");
            assert("Namespace"@.len() != "Position 3D ASL"@.len());
        },
        Kind::Nothing => {
            reveal_strlit("Nothing");
            assert("Nothing"@.len() != "Position 3D ASL"@.len());
        },
        Kind::Number => {
            reveal_strlit("Number");
            assert("Number"@.len() != "Position 3D ASL"@.len());
        },
        Kind::Object => {
            reveal_strlit("Object");
            assert("Object"@.len() != "Position 3D ASL"@.len());
        },
        Kind::ScriptHandle => {
            reveal_strlit("Script Handle");
            assert("Script Handle"@.len() != "Position 3D ASL"@.len());
        },
        Kind::Side => {
            reveal_strlit("Side");
            assert("Side"@.len() != "Position 3D ASL"@.len());
        },
        Kind::String => {
            reveal_strlit("String");
            assert("String"@.len() != "Position 3D ASL"@.len());
        },
        Kind::StructuredText => {
            reveal_strlit("Structured Text");
            assert("Structured Text"@[0] != "Position 3D ASL"@[0]);
        },
        Kind::SwitchType => {
            reveal_strlit("Switch Type");
            assert("Switch Type"@.len() != "Position 3D ASL"@.len());
        },
        Kind::Task => {
            reveal_strlit("Task");
            assert("Task"@.len() != "Position 3D ASL"@.len());
        },
        Kind::TeamMember => {
            reveal_strlit("Team Member");
            assert("Team Member"@.len() != "Position 3D ASL"@.len());
        },
        Kind::Path => {
            reveal_strlit("Path");
            assert("Path"@.len() != "Position 3D ASL"@.len());
        },
        Kind::TreeViewPath => {
            reveal_strlit("Tree View Path");
            assert("Tree View Path"@.len() != "Position 3D ASL"@.len());
        },
        Kind::TurretPath => {
            reveal_strlit("Turret Path");
            assert("Turret Path"@.len() != "Position 3D ASL"@.len());
        },
        Kind::UnitLoadoutArray => {
            reveal_strlit("Unit Loadout Array");
            assert("Unit Loadout Array"@.len() != "Position 3D ASL"@.len());
        },
        Kind::ParticleArray => {
            reveal_strlit("Particle Array");
            assert("Particle Array"@.len() != "Position 3D ASL"@.len());
        },
        Kind::Position => {
            reveal_strlit("Position");
            assert("Position"@.len() != "Position 3D ASL"@.len());
        },
        Kind::Position2d => {
            reveal_strlit("Position 2D");
            assert("Position 2D"@.len() != "Position 3D ASL"@.len());
        },
        Kind::Position3d => {
            reveal_strlit("Position 3D");
            assert("Position 3D"@.len() != "Position 3D ASL"@.len());
        },
        Kind::Position3dASL => {},
        Kind::Position3dASLW => {
            reveal_strlit("Position 3D ASLW");
            assert("Position 3D ASLW"@.len() != "Position 3D ASL"@.len());
        },
        Kind::Position3dATL => {
            reveal_strlit("Position 3D ATL");
            assert("Position 3D ATL"@[13] != "Position 3D ASL"@[13]);
        },
        Kind::Position3dAGL => {
            reveal_strlit("Position 3D AGL");
            assert("Position 3D AGL"@[13] != "Position 3D ASL"@[13]);
        },
        Kind::Position3dAGLS => {
            reveal_strlit("Position 3D AGLS");
            assert("Position 3D AGLS"@.len() != "Position 3D ASL"@.len());
        },
        Kind::Position3dRelative => {
            reveal_strlit("Position 3D Relative");
            assert("Position 3D Relative"@.len() != "Position 3D ASL"@.len());
        },
        Kind::Position3dWorld => {
            reveal_strlit("Position 3D World");
            assert("Position 3D World"@.len() != "Position 3D ASL"@.len());
        },
        Kind::Vector => {
            reveal_strlit("Vector");
            assert("Vector"@.len() != "Position 3D ASL"@.len());
        },
        Kind::Vector2d => {
            reveal_strlit("Vector 2D");
            assert("Vector 2D"@.len() != "Position 3D ASL"@.len());
        },
        Kind::Vector3d => {
            reveal_strlit("Vector 3D");
            assert("Vector 3D"@.len() != "Position 3D ASL"@.len());
        },
        Kind::Waypoint => {
            reveal_strlit("Waypoint");
            assert("Waypoint"@.len() != "Position 3D ASL"@.len());
        },
        Kind::WhileType => {
            reveal_strlit("While Type");
            assert("While Type"@.len() != "Position 3D ASL"@.len());
        },
        Kind::WithType => {
            reveal_strlit("With Type");
            assert("With Type"@.len() != "Position 3D ASL"@.len());
        },
        Kind::Unknown => {
            reveal_strlit("Unknown");
            assert("Unknown"@.len() != "Position 3D ASL"@.len());
        },
    }
}

proof fn lemma_only_position3d_a_s_l_w_written_so(k: Kind)
    ensures
        kind_text(k) == kind_text(Kind::Position3dASLW) ==> k == Kind::Position3dASLW,
{
    reveal_strlit("Position 3D ASLW");
    match k {
        Kind::Anything => {
            reveal_strlit("Anything");
            assert("Anything"@.len() != "Position 3D ASLW"@.len());
        },
        Kind::ArrayEmpty => {
            reveal_strlit("Array Empty");
            assert("Array Empty"@.len() != "Position 3D ASLW"@.len());
        },
        Kind::ArrayDate => {
            reveal_strlit("Array Date");
            assert("Array Date"@.len() != "Position 3D ASLW"@.len());
        },
        Kind::ArrayColor => {
            reveal_strlit("Array Color");
            assert("Array Color"@.len() != "Position 3D ASLW"@.len());
        },
        Kind::ArrayColorRgb => {
            reveal_strlit("Array Color RGB");
            assert("Array Color RGB"@.len() != "Position 3D ASLW"@.len());
        },
        Kind::ArrayColorRgba => {
            reveal_strlit("Array Color RGBA");
            assert("Array Color RGBA"@[0] != "Position 3D ASLW"@[0]);
        },
        Kind::ArrayEdenEntities => {
            reveal_strlit("Array Eden Entities");
            assert("Array Eden Entities"@.len() != "Position 3D ASLW"@.len());
        },
        Kind::Boolean => {
            reveal_strlit("Boolean");
            assert("Boolean"@.len() != "Position 3D ASLW"@.len());
        },
        Kind::Code => {
            reveal_strlit("Code");
            assert("Code"@.len() != "Position 3D ASLW"@.len());
        },
        Kind::Config => {
            reveal_strlit("Config");
            assert("Config"@.len() != "Position 3D ASLW"@.len());
        },
        Kind::Control => {
            reveal_strlit("Control");
            assert("Control"@.len() != "Position 3D ASLW"@.len());
        },
        Kind::DiaryRecord => {
            reveal_strlit("Diary Record");
            assert("Diary Record"@.len() != "Position 3D ASLW"@.len());
        },
        Kind::Display => {
            reveal_strlit("Display");
            assert("Display"@.len() != "Position 3D ASLW"@.len());
        },
        Kind::EdenEntity => {
            reveal_strlit("Eden Entity");
            assert("Eden Entity"@.len() != "Position 3D ASLW"@.len());
        },
        Kind::EdenID => {
            reveal_strlit("Eden ID");
            assert("Eden ID"@.len() != "Position 3D ASLW"@.len());
        },
        Kind::ExceptionHandle => {
            reveal_strlit("Exception Handle");
            assert("Exception Handle"@[0] != "Position 3D ASLW"@[0]);
        },
        Kind::ForType => {
            reveal_strlit("For Type");
            assert("For Type"@.len() != "Position 3D ASLW"@.len());
        },
        Kind::Group => {
            reveal_strlit("Group");
            assert("Group"@.len() != "Position 3D ASLW"@.len());
        },
        Kind::HashMapUnknown => {
            reveal_strlit("HashMap Unknown");
            assert("HashMap Unknown"@.len() != "Position 3D ASLW"@.len());
        },
        Kind::HashMapKey => {
            reveal_strlit("HashMap Key");
            assert("HashMap Key"@.len() != "Position 3D ASLW"@.len());
        },
        Kind::IfType => {
            reveal_strlit("If Type");
            assert("If Type"@.len() != "Position 3D ASLW"@.len());
        },
        Kind::Location => {
            reveal_strlit("Location");
            assert("Location"@.len() != "Position 3D ASLW"@.len());
        },
        Kind::Namespace => {
            reveal_strlit("Namespace");
            assert("Namespace"@.len() != "Position 3D ASLW"@.len());
        },
        Kind::Nothing => {
            reveal_strlit("Nothing");
            assert("Nothing"@.len() != "Position 3D ASLW"@.len());
        },
        Kind::Number => {
            reveal_strlit("Number");
            assert("Number"@.len() != "Position 3D ASLW"@.len());
        },
        Kind::Object => {
            reveal_strlit("Object");
            assert("Object"@.len() != "Position 3D ASLW"@.len());
        },
        Kind::ScriptHandle => {
            reveal_strlit("Script Handle");
            assert("Script Handle"@.len() != "Position 3D ASLW"@.len());
        },
        Kind::Side => {
            reveal_strlit("Side");
            assert("Side"@.len() != "Position 3D ASLW"@.len());
        },
        Kind::String => {
            reveal_strlit("String");
            assert("String"@.len() != "Position 3D ASLW"@.len());
        },
        Kind::StructuredText => {
            reveal_strlit("Structured Text");
            assert("Structured Text"@.len() != "Position 3D ASLW"@.len());
        },
        Kind::SwitchType => {
            reveal_strlit("Switch Type");
            assert("Switch Type"@.len() != "Position 3D ASLW"@.len());
        },
        Kind::Task => {
            reveal_strlit("Task");
            assert("Task"@.len() != "Position 3D ASLW"@.len());
        },
        Kind::TeamMember => {
            reveal_strlit("Team Member");
            assert("Team Member"@.len() != "Position 3D ASLW"@.len());
        },
        Kind::Path => {
            reveal_strlit("Path");
            assert("Path"@.len() != "Position 3D ASLW"@.len());
        },
        Kind::TreeViewPath => {
            reveal_strlit("Tree View Path");
            assert("Tree View Path"@.len() != "Position 3D ASLW"@.len());
        },
        Kind::TurretPath => {
            reveal_strlit("Turret Path");
            assert("Turret Path"@.len() != "Position 3D ASLW"@.len());
        },
        Kind::UnitLoadoutArray => {
            reveal_strlit("Unit Loadout Array");
            assert("Unit Loadout Array"@.len() != "Position 3D ASLW"@.len());
        },
        Kind::ParticleArray => {
            reveal_strlit("Particle Array");
            assert("Particle Array"@.len() != "Position 3D ASLW"@.len());
        },
        Kind::Position => {
            reveal_strlit("Position");
            assert("Position"@.len() != "Position 3D ASLW"@.len());
        },
        Kind::Position2d => {
            reveal_strlit("Position 2D");
            assert("Position 2D"@.len() != "Position 3D ASLW"@.len());
        },
        Kind::Position3d => {
            reveal_strlit("Position 3D");
            assert("Position 3D"@.len() != "Position 3D ASLW"@.len());
        },
        Kind::Position3dASL => {
            reveal_strlit("Position 3D ASL");
            assert("Position 3D ASL"@.len() != "Position 3D ASLW"@.len());
        },
        Kind::Position3dASLW => {},
        Kind::Position3dATL => {
            reveal_strlit("Position 3D ATL");
            assert("Position 3D ATL"@.len() != "Position 3D ASLW"@.len());
        },
        Kind::Position3dAGL => {
            reveal_strlit("Position 3D AGL");
            assert("Position 3D AGL"@.len() != "Position 3D ASLW"@.len());
        },
        Kind::Position3dAGLS => {
            reveal_strlit("Position 3D AGLS");
            assert("Position 3D AGLS"@[13] != "Position 3D ASLW"@[13]);
        },
        Kind::Position3dRelative => {
            reveal_strlit("Position 3D Relative");
            assert("Position 3D Relative"@.len() != "Position 3D ASLW"@.len());
        },
        Kind::Position3dWorld => {
            reveal_strlit("Position 3D World");
            assert("Position 3D World"@.len() != "Position 3D ASLW"@.len());
        },
        Kind::Vector => {
            reveal_strlit("Vector");
            assert("Vector"@.len() != "Position 3D ASLW"@.len());
        },
        Kind::Vector2d => {
            reveal_strlit("Vector 2D");
            assert("Vector 2D"@.len() != "Position 3D ASLW"@.len());
        },
        Kind::Vector3d => {
            reveal_strlit("Vector 3D");
            assert("Vector 3D"@.len() != "Position 3D ASLW"@.len());
        },
        Kind::Waypoint => {
            reveal_strlit("Waypoint");
            assert("Waypoint"@.len() != "Position 3D ASLW"@.len());
        },
        Kind::WhileType => {
            reveal_strlit("While Type");
            assert("While Type"@.len() != "Position 3D ASLW"@.len());
        },
        Kind::WithType => {
            reveal_strlit("With Type");
            assert("With Type"@.len() != "Position 3D ASLW"@.len());
        },
        Kind::Unknown => {
            reveal_strlit("Unknown");
            assert("Unknown"@.len() != "Position 3D ASLW"@.len());
        },
    }
}

proof fn lemma_only_position3d_a_t_l_written_so(k: Kind)
    ensures
        kind_text(k) == kind_text(Kind::Position3dATL) ==> k == Kind::Position3dATL,
{
    reveal_strlit("Position 3D ATL");
    match k {
        Kind::Anything => {
            reveal_strlit("Anything");
            assert("Anything"@.len() != "Position 3D ATL"@.len());
        },
        Kind::ArrayEmpty => {
            reveal_strlit("Array Empty");
            assert("Array Empty"@.len() != "Position 3D ATL"@.len());
        },
        Kind::ArrayDate => {
            reveal_strlit("Array Date");
            assert("Array Date"@.len() != "Position 3D ATL"@.len());
        },
        Kind::ArrayColor => {
            reveal_strlit("Array Color");
            assert("Array Color"@.len() != "Position 3D ATL"@.len());
        },
        Kind::ArrayColorRgb => {
            reveal_strlit("Array Color RGB");
            assert("Array Color RGB"@[0] != "Position 3D ATL"@[0]);
        },
        Kind::ArrayColorRgba => {
            reveal_strlit("Array Color RGBA");
            assert("Array Color RGBA"@.len() != "Position 3D ATL"@.len());
        },
        Kind::ArrayEdenEntities => {
            reveal_strlit("Array Eden Entities");
            assert("Array Eden Entities"@.len() != "Position 3D ATL"@.len());
        },
        Kind::Boolean => {
            reveal_strlit("Boolean");
            assert("Boolean"@.len() != "Position 3D ATL"@.len());
        },
        Kind::Code => {
            reveal_strlit("Code");
            assert("Code"@.len() != "Position 3D ATL"@.len());
        },
        Kind::Config => {
            reveal_strlit("Config");
            assert("Config"@.len() != "Position 3D ATL"@.len());
        },
        Kind::Control => {
            reveal_strlit("Control");
            assert("Control"@.len() != "Position 3D ATL"@.len());
        },
        Kind::DiaryRecord => {
            reveal_strlit("Diary Record");
            assert("Diary Record"@.len() != "Position 3D ATL"@.len());
        },
        Kind::Display => {
            reveal_strlit("Display");
            assert("Display"@.len() != "Position 3D ATL"@.len());
        },
        Kind::EdenEntity => {
            reveal_strlit("Eden Entity");
            assert("Eden Entity"@.len() != "Position 3D ATL"@.len());
        },
        Kind::EdenID => {
            reveal_strlit("Eden ID");
            assert("Eden ID"@.len() != "Position 3D ATL"@.len());
        },
        Kind::ExceptionHandle => {
            reveal_strlit("Exception Handle");
            assert("Exception Handle"@.len() != "Position 3D ATL"@.len());
        },
        Kind::ForType => {
            reveal_strlit("For Type");
            assert("For Type"@.len() != "Position 3D ATL"@.len());
        },
        Kind::Group => {
            reveal_strlit("Group");
            assert("Group"@.len() != "Position 3D ATL"@.len());
        },
        Kind::HashMapUnknown => {
            reveal_strlit("HashMap Unknown");
            assert("HashMap Unknown"@[0] != "Position 3D ATL"@[0]);
        },
        Kind::HashMapKey => {
            reveal_strlit("HashMap Key");
            assert("HashMap Key"@.len() != "Position 3D ATL"@.len());
        },
        Kind::IfType => {
            reveal_strlit("If Type");
            assert("If Type"@.len() != "Position 3D ATL"@.len());
        },
        Kind::Location => {
            reveal_strlit("Location");
            assert("Location"@.len() != "Position 3D ATL"@.len());
        },
        Kind::Namespace => {
            reveal_strlit("Namespace");
            assert("Namespace"@.len() != "Position 3D ATL"@.len());
        },
        Kind::Nothing => {
            reveal_strlit("Nothing");
            assert("Nothing"@.len() != "Position 3D ATL"@.len());
        },
        Kind::Number => {
            reveal_strlit("Number");
            assert("Number"@.len() != "Position 3D ATL"@.len());
        },
        Kind::Object => {
            reveal_strlit("Object");
            assert("Object"@.len() != "Position 3D ATL"@.len());
        },
        Kind::ScriptHandle => {
            reveal_strlit("Script Handle");
            assert("Script Handle"@.len() != "Position 3D ATL"@.len());
        },
        Kind::Side => {
            reveal_strlit("Side");
            assert("Side"@.len() != "Position 3D ATL"@.len());
        },
        Kind::String => {
            reveal_strlit("String");
            assert("String"@.len() != "Position 3D ATL"@.len());
        },
        Kind::StructuredText => {
            reveal_strlit("Structured Text");
            assert("Structured Text"@[0] != "Position 3D ATL"@[0]);
        },
        Kind::SwitchType => {
            reveal_strlit("Switch Type");
            assert("Switch Type"@.len() != "Position 3D ATL"@.len());
        },
        Kind::Task => {
            reveal_strlit("Task");
            assert("Task"@.len() != "Position 3D ATL"@.len());
        },
        Kind::TeamMember => {
            reveal_strlit("Team Member");
            assert("Team Member"@.len() != "Position 3D ATL"@.len());
        },
        Kind::Path => {
            reveal_strlit("Path");
            assert("Path"@.len() != "Position 3D ATL"@.len());
        },
        Kind::TreeViewPath => {
            reveal_strlit("Tree View Path");
            assert("Tree View Path"@.len() != "Position 3D ATL"@.len());
        },
        Kind::TurretPath => {
            reveal_strlit("Turret Path");
            assert("Turret Path"@.len() != "Position 3D ATL"@.len());
        },
        Kind::UnitLoadoutArray => {
            reveal_strlit("Unit Loadout Array");
            assert("Unit Loadout Array"@.len() != "Position 3D ATL"@.len());
        },
        Kind::ParticleArray => {
            reveal_strlit("Particle Array");
            assert("Particle Array"@.len() != "Position 3D ATL"@.len());
        },
        Kind::Position => {
            reveal_strlit("Position");
            assert("Position"@.len() != "Position 3D ATL"@.len());
        },
        Kind::Position2d => {
            reveal_strlit("Position 2D");
            assert("Position 2D"@.len() != "Position 3D ATL"@.len());
        },
        Kind::Position3d => {
            reveal_strlit("Position 3D");
            assert("Position 3D"@.len() != "Position 3D ATL"@.len());
        },
        Kind::Position3dASL => {
            reveal_strlit("Position 3D ASL");
            assert("Position 3D ASL"@[13] != "Position 3D ATL"@[13]);
        },
        Kind::Position3dASLW => {
            reveal_strlit("Position 3D ASLW");
            assert("Position 3D ASLW"@.len() != "Position 3D ATL"@.len());
        },
        Kind::Position3dATL => {},
        Kind::Position3dAGL => {
            reveal_strlit("Position 3D AGL");
            assert("Position 3D AGL"@[13] != "Position 3D ATL"@[13]);
        },
        Kind::Position3dAGLS => {
            reveal_strlit("Position 3D AGLS");
            assert("Position 3D AGLS"@.len() != "Position 3D ATL"@.len());
        },
        Kind::Position3dRelative => {
            reveal_strlit("Position 3D Relative");
            assert("Position 3D Relative"@.len() != "Position 3D ATL"@.len());
        },
        Kind::Position3dWorld => {
            reveal_strlit("Position 3D World");
            assert("Position 3D World"@.len() != "Position 3D ATL"@.len());
        },
        Kind::Vector => {
            reveal_strlit("Vector");
            assert("Vector"@.len() != "Position 3D ATL"@.len());
        },
        Kind::Vector2d => {
            reveal_strlit("Vector 2D");
            assert("Vector 2D"@.len() != "Position 3D ATL"@.len());
        },
        Kind::Vector3d => {
            reveal_strlit("Vector 3D");
            assert("Vector 3D"@.len() != "Position 3D ATL"@.len());
        },
        Kind::Waypoint => {
            reveal_strlit("Waypoint");
            assert("Waypoint"@.len() != "Position 3D ATL"@.len());
        },
        Kind::WhileType => {
            reveal_strlit("While Type");
            assert("While Type"@.len() != "Position 3D ATL"@.len());
        },
        Kind::WithType => {
            reveal_strlit("With Type");
            assert("With Type"@.len() != "Position 3D ATL"@.len());
        },
        Kind::Unknown => {
            reveal_strlit("Unknown");
            assert("Unknown"@.len() != "Position 3D ATL"@.len());
        },
    }
}

proof fn lemma_only_position3d_a_g_l_written_so(k: Kind)
    ensures
        kind_text(k) == kind_text(Kind::Position3dAGL) ==> k == Kind::Position3dAGL,
{
    reveal_strlit("Position 3D AGL");
    match k {
        Kind::Anything => {
            reveal_strlit("Anything");
            assert("Anything"@.len() != "Position 3D AGL"@.len());
        },
        Kind::ArrayEmpty => {
            reveal_strlit("Array Empty");
            assert("Array Empty"@.len() != "Position 3D AGL"@.len());
        },
        Kind::ArrayDate => {
            reveal_strlit("Array Date");
            assert("Array Date"@.len() != "Position 3D AGL"@.len());
        },
        Kind::ArrayColor => {
            reveal_strlit("Array Color");
            assert("Array Color"@.len() != "Position 3D AGL"@.len());
        },
        Kind::ArrayColorRgb => {
            reveal_strlit("Array Color RGB");
            assert("Array Color RGB"@[0] != "Position 3D AGL"@[0]);
        },
        Kind::ArrayColorRgba => {
            reveal_strlit("Array Color RGBA");
            assert("Array Color RGBA"@.len() != "Position 3D AGL"@.len());
        },
        Kind::ArrayEdenEntities => {
            reveal_strlit("Array Eden Entities");
            assert("Array Eden Entities"@.len() != "Position 3D AGL"@.len());
        },
        Kind::Boolean => {
            reveal_strlit("Boolean");
            assert("Boolean"@.len() != "Position 3D AGL"@.len());
        },
        Kind::Code => {
            reveal_strlit("Code");
            assert("Code"@.len() != "Position 3D AGL"@.len());
        },
        Kind::Config => {
            reveal_strlit("Config");
            assert("Config"@.len() != "Position 3D AGL"@.len());
        },
        Kind::Control => {
            reveal_strlit("Control");
            assert("Control"@.len() != "Position 3D AGL"@.len());
        },
        Kind::DiaryRecord => {
            reveal_strlit("Diary Record");
            assert("Diary Record"@.len() != "Position 3D AGL"@.len());
        },
        Kind::Display => {
            reveal_strlit("Display");
            assert("Display"@.len() != "Position 3D AGL"@.len());
        },
        Kind::EdenEntity => {
            reveal_strlit("Eden Entity");
            assert("Eden Entity"@.len() != "Position 3D AGL"@.len());
        },
        Kind::EdenID => {
            reveal_strlit("Eden ID");
            assert("Eden ID"@.len() != "Position 3D AGL"@.len());
        },
        Kind::ExceptionHandle => {
            reveal_strlit("Exception Handle");
            assert("Exception Handle"@.len() != "Position 3D AGL"@.len());
        },
        Kind::ForType => {
            reveal_strlit("For Type");
            assert("For Type"@.len() != "Position 3D AGL"@.len());
        },
        Kind::Group => {
            reveal_strlit("Group");
            assert("Group"@.len() != "Position 3D AGL"@.len());
        },
        Kind::HashMapUnknown => {
            reveal_strlit("HashMap Unknown");
            assert("HashMap Unknown"@[0] != "Position 3D AGL"@[0]);
        },
        Kind::HashMapKey => {
            reveal_strlit("HashMap Key");
            assert("HashMap Key"@.len() != "Position 3D AGL"@.len());
        },
        Kind::IfType => {
            reveal_strlit("If Type");
            assert("If Type"@.len() != "Position 3D AGL"@.len());
        },
        Kind::Location => {
            reveal_strlit("Location");
            assert("Location"@.len() != "Position 3D AGL"@.len());
        },
        Kind::Namespace => {
            reveal_strlit("Namespace");
            assert("Namespace"@.len() != "Position 3D AGL"@.len());
        },
        Kind::Nothing => {
            reveal_strlit("Nothing");
            assert("Nothing"@.len() != "Position 3D AGL"@.len());
        },
        Kind::Number => {
            reveal_strlit("Number");
            assert("Number"@.len() != "Position 3D AGL"@.len());
        },
        Kind::Object => {
            reveal_strlit("Object");
            assert("Object"@.len() != "Position 3D AGL"@.len());
        },
        Kind::ScriptHandle => {
            reveal_strlit("Script Handle");
            assert("Script Handle"@.len() != "Position 3D AGL"@.len());
        },
        Kind::Side => {
            reveal_strlit("Side");
            assert("Side"@.len() != "Position 3D AGL"@.len());
        },
        Kind::String => {
            reveal_strlit("String");
            assert("String"@.len() != "Position 3D AGL"@.len());
        },
        Kind::StructuredText => {
            reveal_strlit("Structured Text");
            assert("Structured Text"@[0] != "Position 3D AGL"@[0]);
        },
        Kind::SwitchType => {
            reveal_strlit("Switch Type");
            assert("Switch Type"@.len() != "Position 3D AGL"@.len());
        },
        Kind::Task => {
            reveal_strlit("Task");
            assert("Task"@.len() != "Position 3D AGL"@.len());
        },
        Kind::TeamMember => {
            reveal_strlit("Team Member");
            assert("Team Member"@.len() != "Position 3D AGL"@.len());
        },
        Kind::Path => {
            reveal_strlit("Path");
            assert("Path"@.len() != "Position 3D AGL"@.len());
        },
        Kind::TreeViewPath => {
            reveal_strlit("Tree View Path");
            assert("Tree View Path"@.len() != "Position 3D AGL"@.len());
        },
        Kind::TurretPath => {
            reveal_strlit("Turret Path");
            assert("Turret Path"@.len() != "Position 3D AGL"@.len());
        },
        Kind::UnitLoadoutArray => {
            reveal_strlit("Unit Loadout Array");
            assert("Unit Loadout Array"@.len() != "Position 3D AGL"@.len());
        },
        Kind::ParticleArray => {
            reveal_strlit("Particle Array");
            assert("Particle Array"@.len() != "Position 3D AGL"@.len());
        },
        Kind::Position => {
            reveal_strlit("Position");
            assert("Position"@.len() != "Position 3D AGL"@.len());
        },
        Kind::Position2d => {
            reveal_strlit("Position 2D");
            assert("Position 2D"@.len() != "Position 3D AGL"@.len());
        },
        Kind::Position3d => {
            reveal_strlit("Position 3D");
            assert("Position 3D"@.len() != "Position 3D AGL"@.len());
        },
        Kind::Position3dASL => {
            reveal_strlit("Position 3D ASL");
            assert("Position 3D ASL"@[13] != "Position 3D AGL"@[13]);
        },
        Kind::Position3dASLW => {
            reveal_strlit("Position 3D ASLW");
            assert("Position 3D ASLW"@.len() != "Position 3D AGL"@.len());
        },
        Kind::Position3dATL => {
            reveal_strlit("Position 3D ATL");
            assert("Position 3D ATL"@[13] != "Position 3D AGL"@[13]);
        },
        Kind::Position3dAGL => {},
        Kind::Position3dAGLS => {
            reveal_strlit("Position 3D AGLS");
            assert("Position 3D AGLS"@.len() != "Position 3D AGL"@.len());
        },
        Kind::Position3dRelative => {
            reveal_strlit("Position 3D Relative");
            assert("Position 3D Relative"@.len() != "Position 3D AGL"@.len());
        },
        Kind::Position3dWorld => {
            reveal_strlit("Position 3D World");
            assert("Position 3D World"@.len() != "Position 3D AGL"@.len());
        },
        Kind::Vector => {
            reveal_strlit("Vector");
            assert("Vector"@.len() != "Position 3D AGL"@.len());
        },
        Kind::Vector2d => {
            reveal_strlit("Vector 2D");
            assert("Vector 2D"@.len() != "Position 3D AGL"@.len());
        },
        Kind::Vector3d => {
            reveal_strlit("Vector 3D");
            assert("Vector 3D"@.len() != "Position 3D AGL"@.len());
        },
        Kind::Waypoint => {
            reveal_strlit("Waypoint");
            assert("Waypoint"@.len() != "Position 3D AGL"@.len());
        },
        Kind::WhileType => {
            reveal_strlit("While Type");
            assert("While Type"@.len() != "Position 3D AGL"@.len());
        },
        Kind::WithType => {
            reveal_strlit("With Type");
            assert("With Type"@.len() != "Position 3D AGL"@.len());
        },
        Kind::Unknown => {
            reveal_strlit("Unknown");
            assert("Unknown"@.len() != "Position 3D AGL"@.len());
        },
    }
}

proof fn lemma_only_position3d_a_g_l_s_written_so(k: Kind)
    ensures
        kind_text(k) == kind_text(Kind::Position3dAGLS) ==> k == Kind::Position3dAGLS,
{
    reveal_strlit("Position 3D AGLS");
    match k {
        Kind::Anything => {
            reveal_strlit("Anything");
            assert("Anything"@.len() != "Position 3D AGLS"@.len());
        },
        Kind::ArrayEmpty => {
            reveal_strlit("Array Empty");
            assert("Array Empty"@.len() != "Position 3D AGLS"@.len());
        },
        Kind::ArrayDate => {
            reveal_strlit("Array Date");
            assert("Array Date"@.len() != "Position 3D AGLS"@.len());
        },
        Kind::ArrayColor => {
            reveal_strlit("Array Color");
            assert("Array Color"@.len() != "Position 3D AGLS"@.len());
        },
        Kind::ArrayColorRgb => {
            reveal_strlit("Array Color RGB");
            assert("Array Color RGB"@.len() != "Position 3D AGLS"@.len());
        },
        Kind::ArrayColorRgba => {
            reveal_strlit("Array Color RGBA");
            assert("Array Color RGBA"@[0] != "Position 3D AGLS"@[0]);
        },
        Kind::ArrayEdenEntities => {
            reveal_strlit("Array Eden Entities");
            assert("Array Eden Entities"@.len() != "Position 3D AGLS"@.len());
        },
        Kind::Boolean => {
            reveal_strlit("Boolean");
            assert("Boolean"@.len() != "Position 3D AGLS"@.len());
        },
        Kind::Code => {
            reveal_strlit("Code");
            assert("Code"@.len() != "Position 3D AGLS"@.len());
        },
        Kind::Config => {
            reveal_strlit("Config");
            assert("Config"@.len() != "Position 3D AGLS"@.len());
        },
        Kind::Control => {
            reveal_strlit("Control");
            assert("Control"@.len() != "Position 3D AGLS"@.len());
        },
        Kind::DiaryRecord => {
            reveal_strlit("Diary Record");
            assert("Diary Record"@.len() != "Position 3D AGLS"@.len());
        },
        Kind::Display => {
            reveal_strlit("Display");
            assert("Display"@.len() != "Position 3D AGLS"@.len());
        },
        Kind::EdenEntity => {
            reveal_strlit("Eden Entity");
            assert("Eden Entity"@.len() != "Position 3D AGLS"@.len());
        },
        Kind::EdenID => {
            reveal_strlit("Eden ID");
            assert("Eden ID"@.len() != "Position 3D AGLS"@.len());
        },
        Kind::ExceptionHandle => {
            reveal_strlit("Exception Handle");
            assert("Exception Handle"@[0] != "Position 3D AGLS"@[0]);
        },
        Kind::ForType => {
            reveal_strlit("For Type");
            assert("For Type"@.len() != "Position 3D AGLS"@.len());
        },
        Kind::Group => {
            reveal_strlit("Group");
            assert("Group"@.len() != "Position 3D AGLS"@.len());
        },
        Kind::HashMapUnknown => {
            reveal_strlit("HashMap Unknown");
            assert("HashMap Unknown"@.len() != "Position 3D AGLS"@.len());
        },
        Kind::HashMapKey => {
            reveal_strlit("HashMap Key");
            assert("HashMap Key"@.len() != "Position 3D AGLS"@.len());
        },
        Kind::IfType => {
            reveal_strlit("If Type");
            assert("If Type"@.len() != "Position 3D AGLS"@.len());
        },
        Kind::Location => {
            reveal_strlit("Location");
            assert("Location"@.len() != "Position 3D AGLS"@.len());
        },
        Kind::Namespace => {
            reveal_strlit("Namespace");
            assert("Namespace"@.len() != "Position 3D AGLS"@.len());
        },
        Kind::Nothing => {
            reveal_strlit("Nothing");
            assert("Nothing"@.len() != "Position 3D AGLS"@.len());
        },
        Kind::Number => {
            reveal_strlit("Number");
            assert("Number"@.len() != "Position 3D AGLS"@.len());
        },
        Kind::Object => {
            reveal_strlit("Object");
            assert("Object"@.len() != "Position 3D AGLS"@.len());
        },
        Kind::ScriptHandle => {
            reveal_strlit("Script Handle");
            assert("Script Handle"@.len() != "Position 3D AGLS"@.len());
        },
        Kind::Side => {
            reveal_strlit("Side");
            assert("Side"@.len() != "Position 3D AGLS"@.len());
        },
        Kind::String => {
            reveal_strlit("String");
            assert("String"@.len() != "Position 3D AGLS"@.len());
        },
        Kind::StructuredText => {
            reveal_strlit("Structured Text");
            assert("Structured Text"@.len() != "Position 3D AGLS"@.len());
        },
        Kind::SwitchType => {
            reveal_strlit("Switch Type");
            assert("Switch Type"@.len() != "Position 3D AGLS"@.len());
        },
        Kind::Task => {
            reveal_strlit("Task");
            assert("Task"@.len() != "Position 3D AGLS"@.len());
        },
        Kind::TeamMember => {
            reveal_strlit("Team Member");
            assert("Team Member"@.len() != "Position 3D AGLS"@.len());
        },
        Kind::Path => {
            reveal_strlit("Path");
            assert("Path"@.len() != "Position 3D AGLS"@.len());
        },
        Kind::TreeViewPath => {
            reveal_strlit("Tree View Path");
            assert("Tree View Path"@.len() != "Position 3D AGLS"@.len());
        },
        Kind::TurretPath => {
            reveal_strlit("Turret Path");
            assert("Turret Path"@.len() != "Position 3D AGLS"@.len());
        },
        Kind::UnitLoadoutArray => {
            reveal_strlit("Unit Loadout Array");
            assert("Unit Loadout Array"@.len() != "Position 3D AGLS"@.len());
        },
        Kind::ParticleArray => {
            reveal_strlit("Particle Array");
            assert("Particle Array"@.len() != "Position 3D AGLS"@.len());
        },
        Kind::Position => {
            reveal_strlit("Position");
            assert("Position"@.len() != "Position 3D AGLS"@.len());
        },
        Kind::Position2d => {
            reveal_strlit("Position 2D");
            assert("Position 2D"@.len() != "Position 3D AGLS"@.len());
        },
        Kind::Position3d => {
            reveal_strlit("Position 3D");
            assert("Position 3D"@.len() != "Position 3D AGLS"@.len());
        },
        Kind::Position3dASL => {
            reveal_strlit("Position 3D ASL");
            assert("Position 3D ASL"@.len() != "Position 3D AGLS"@.len());
        },
        Kind::Position3dASLW => {
            reveal_strlit("Position 3D ASLW");
            assert("Position 3D ASLW"@[13] != "Position 3D AGLS"@[13]);
        },
        Kind::Position3dATL => {
            reveal_strlit("Position 3D ATL");
            assert("Position 3D ATL"@.len() != "Position 3D AGLS"@.len());
        },
        Kind::Position3dAGL => {
            reveal_strlit("Position 3D AGL");
            assert("Position 3D AGL"@.len() != "Position 3D AGLS"@.len());
        },
        Kind::Position3dAGLS => {},
        Kind::Position3dRelative => {
            reveal_strlit("Position 3D Relative");
            assert("Position 3D Relative"@.len() != "Position 3D AGLS"@.len());
        },
        Kind::Position3dWorld => {
            reveal_strlit("Position 3D World");
            assert("Position 3D World"@.len() != "Position 3D AGLS"@.len());
        },
        Kind::Vector => {
            reveal_strlit("Vector");
            assert("Vector"@.len() != "Position 3D AGLS"@.len());
        },
        Kind::Vector2d => {
            reveal_strlit("Vector 2D");
            assert("Vector 2D"@.len() != "Position 3D AGLS"@.len());
        },
        Kind::Vector3d => {
            reveal_strlit("Vector 3D");
            assert("Vector 3D"@.len() != "Position 3D AGLS"@.len());
        },
        Kind::Waypoint => {
            reveal_strlit("Waypoint");
            assert("Waypoint"@.len() != "Position 3D AGLS"@.len());
        },
        Kind::WhileType => {
            reveal_strlit("While Type");
            assert("While Type"@.len() != "Position 3D AGLS"@.len());
        },
        Kind::WithType => {
            reveal_strlit("With Type");
            assert("With Type"@.len() != "Position 3D AGLS"@.len());
        },
        Kind::Unknown => {
            reveal_strlit("Unknown");
            assert("Unknown"@.len() != "Position 3D AGLS"@.len());
        },
    }
}

proof fn lemma_only_position3d_relative_written_so(k: Kind)
    ensures
        kind_text(k) == kind_text(Kind::Position3dRelative) ==> k == Kind::Position3dRelative,
{
    reveal_strlit("Position 3D Relative");
    match k {
        Kind::Anything => {
            reveal_strlit("Anything");
            assert("Anything"@.len() != "Position 3D Relative"@.len());
        },
        Kind::ArrayEmpty => {
            reveal_strlit("Array Empty");
            assert("Array Empty"@.len() != "Position 3D Relative"@.len());
        },
        Kind::ArrayDate => {
            reveal_strlit("Array Date");
            assert("Array Date"@.len() != "Position 3D Relative"@.len());
        },
        Kind::ArrayColor => {
            reveal_strlit("Array Color");
            assert("Array Color"@.len() != "Position 3D Relative"@.len());
        },
        Kind::ArrayColorRgb => {
            reveal_strlit("Array Color RGB");
            assert("Array Color RGB"@.len() != "Position 3D Relative"@.len());
        },
        Kind::ArrayColorRgba => {
            reveal_strlit("Array Color RGBA");
            assert("Array Color RGBA"@.len() != "Position 3D Relative"@.len());
        },
        Kind::ArrayEdenEntities => {
            reveal_strlit("Array Eden Entities");
            assert("Array Eden Entities"@.len() != "Position 3D Relative"@.len());
        },
        Kind::Boolean => {
            reveal_strlit("Boolean");
            assert("Boolean"@.len() != "Position 3D Relative"@.len());
        },
        Kind::Code => {
            reveal_strlit("Code");
            assert("Code"@.len() != "Position 3D Relative"@.len());
        },
        Kind::Config => {
            reveal_strlit("Config");
            assert("Config"@.len() != "Position 3D Relative"@.len());
        },
        Kind::Control => {
            reveal_strlit("Control");
            assert("Control"@.len() != "Position 3D Relative"@.len());
        },
        Kind::DiaryRecord => {
            reveal_strlit("Diary Record");
            assert("Diary Record"@.len() != "Position 3D Relative"@.len());
        },
        Kind::Display => {
            reveal_strlit("Display");
            assert("Display"@.len() != "Position 3D Relative"@.len());
        },
        Kind::EdenEntity => {
            reveal_strlit("Eden Entity");
            assert("Eden Entity"@.len() != "Position 3D Relative"@.len());
        },
        Kind::EdenID => {
            reveal_strlit("Eden ID");
            assert("Eden ID"@.len() != "Position 3D Relative"@.len());
        },
        Kind::ExceptionHandle => {
            reveal_strlit("Exception Handle");
            assert("Exception Handle"@.len() != "Position 3D Relative"@.len());
        },
        Kind::ForType => {
            reveal_strlit("For Type");
            assert("For Type"@.len() != "Position 3D Relative"@.len());
        },
        Kind::Group => {
            reveal_strlit("Group");
            assert("Group"@.len() != "Position 3D Relative"@.len());
        },
        Kind::HashMapUnknown => {
            reveal_strlit("HashMap Unknown");
            assert("HashMap Unknown"@.len() != "Position 3D Relative"@.len());
        },
        Kind::HashMapKey => {
            reveal_strlit("HashMap Key");
            assert("HashMap Key"@.len() != "Position 3D Relative"@.len());
        },
        Kind::IfType => {
            reveal_strlit("If Type");
            assert("If Type"@.len() != "Position 3D Relative"@.len());
        },
        Kind::Location => {
            reveal_strlit("Location");
            assert("Location"@.len() != "Position 3D Relative"@.len());
        },
        Kind::Namespace => {
            reveal_strlit("Namespace");
            assert("Namespace"@.len() != "Position 3D Relative"@.len());
        },
        Kind::Nothing => {
            reveal_strlit("Nothing");
            assert("Nothing"@.len() != "Position 3D Relative"@.len());
        },
        Kind::Number => {
            reveal_strlit("Number");
            assert("Number"@.len() != "Position 3D Relative"@.len());
        },
        Kind::Object => {
            reveal_strlit("Object");
            assert("Object"@.len() != "Position 3D Relative"@.len());
        },
        Kind::ScriptHandle => {
            reveal_strlit("Script Handle");
            assert("Script Handle"@.len() != "Position 3D Relative"@.len());
        },
        Kind::Side => {
            reveal_strlit("Side");
            assert("Side"@.len() != "Position 3D Relative"@.len());
        },
        Kind::String => {
            reveal_strlit("String");
            assert("String"@.len() != "Position 3D Relative"@.len());
        },
        Kind::StructuredText => {
            reveal_strlit("Structured Text");
            assert("Structured Text"@.len() != "Position 3D Relative"@.len());
        },
        Kind::SwitchType => {
            reveal_strlit("Switch Type");
            assert("Switch Type"@.len() != "Position 3D Relative"@.len());
        },
        Kind::Task => {
            reveal_strlit("Task");
            assert("Task"@.len() != "Position 3D Relative"@.len());
        },
        Kind::TeamMember => {
            reveal_strlit("Team Member");
            assert("Team Member"@.len() != "Position 3D Relative"@.len());
        },
        Kind::Path => {
            reveal_strlit("Path");
            assert("Path"@.len() != "Position 3D Relative"@.len());
        },
        Kind::TreeViewPath => {
            reveal_strlit("Tree View Path");
            assert("Tree View Path"@.len() != "Position 3D Relative"@.len());
        },
        Kind::TurretPath => {
            reveal_strlit("Turret Path");
            assert("Turret Path"@.len() != "Position 3D Relative"@.len());
        },
        Kind::UnitLoadoutArray => {
            reveal_strlit("Unit Loadout Array");
            assert("Unit Loadout Array"@.len() != "Position 3D Relative"@.len());
        },
        Kind::ParticleArray => {
            reveal_strlit("Particle Array");
            assert("Particle Array"@.len() != "Position 3D Relative"@.len());
        },
        Kind::Position => {
            reveal_strlit("Position");
            assert("Position"@.len() != "Position 3D Relative"@.len());
        },
        Kind::Position2d => {
            reveal_strlit("Position 2D");
            assert("Position 2D"@.len() != "Position 3D Relative"@.len());
        },
        Kind::Position3d => {
            reveal_strlit("Position 3D");
            assert("Position 3D"@.len() != "Position 3D Relative"@.len());
        },
        Kind::Position3dASL => {
            reveal_strlit("Position 3D ASL");
            assert("Position 3D ASL"@.len() != "Position 3D Relative"@.len());
        },
        Kind::Position3dASLW => {
            reveal_strlit("Position 3D ASLW");
            assert("Position 3D ASLW"@.len() != "Position 3D Relative"@.len());
        },
        Kind::Position3dATL => {
            reveal_strlit("Position 3D ATL");
            assert("Position 3D ATL"@.len() != "Position 3D Relative"@.len());
        },
        Kind::Position3dAGL => {
            reveal_strlit("Position 3D AGL");
            assert("Position 3D AGL"@.len() != "Position 3D Relative"@.len());
        },
        Kind::Position3dAGLS => {
            reveal_strlit("Position 3D AGLS");
            assert("Position 3D AGLS"@.len() != "Position 3D Relative"@.len());
        },
        Kind::Position3dRelative => {},
        Kind::Position3dWorld => {
            reveal_strlit("Position 3D World");
            assert("Position 3D World"@.len() != "Position 3D Relative"@.len());
        },
        Kind::Vector => {
            reveal_strlit("Vector");
            assert("Vector"@.len() != "Position 3D Relative"@.len());
        },
        Kind::Vector2d => {
            reveal_strlit("Vector 2D");
            assert("Vector 2D"@.len() != "Position 3D Relative"@.len());
        },
        Kind::Vector3d => {
            reveal_strlit("Vector 3D");
            assert("Vector 3D"@.len() != "Position 3D Relative"@.len());
        },
        Kind::Waypoint => {
            reveal_strlit("Waypoint");
            assert("Waypoint"@.len() != "Position 3D Relative"@.len());
        },
        Kind::WhileType => {
            reveal_strlit("While Type");
            assert("While Type"@.len() != "Position 3D Relative"@.len());
        },
        Kind::WithType => {
            reveal_strlit("With Type");
            assert("With Type"@.len() != "Position 3D Relative"@.len());
        },
        Kind::Unknown => {
            reveal_strlit("Unknown");
            assert("Unknown"@.len() != "Position 3D Relative"@.len());
        },
    }
}

proof fn lemma_only_position3d_world_written_so(k: Kind)
    ensures
        kind_text(k) == kind_text(Kind::Position3dWorld) ==> k == Kind::Position3dWorld,
{
    reveal_strlit("Position 3D World");
    match k {
        Kind::Anything => {
            reveal_strlit("Anything");
            assert("Anything"@.len() != "Position 3D World"@.len());
        },
        Kind::ArrayEmpty => {
            reveal_strlit("Array Empty");
            assert("Array Empty"@.len() != "Position 3D World"@.len());
        },
        Kind::ArrayDate => {
            reveal_strlit("Array Date");
            assert("Array Date"@.len() != "Position 3D World"@.len());
        },
        Kind::ArrayColor => {
            reveal_strlit("Array Color");
            assert("Array Color"@.len() != "Position 3D World"@.len());
        },
        Kind::ArrayColorRgb => {
            reveal_strlit("Array Color RGB");
            assert("Array Color RGB"@.len() != "Position 3D World"@.len());
        },
        Kind::ArrayColorRgba => {
            reveal_strlit("Array Color RGBA");
            assert("Array Color RGBA"@.len() != "Position 3D World"@.len());
        },
        Kind::ArrayEdenEntities => {
            reveal_strlit("Array Eden Entities");
            assert("Array Eden Entities"@.len() != "Position 3D World"@.len());
        },
        Kind::Boolean => {
            reveal_strlit("Boolean");
            assert("Boolean"@.len() != "Position 3D World"@.len());
        },
        Kind::Code => {
            reveal_strlit("Code");
            assert("Code"@.len() != "Position 3D World"@.len());
        },
        Kind::Config => {
            reveal_strlit("Config");
            assert("Config"@.len() != "Position 3D World"@.len());
        },
        Kind::Control => {
            reveal_strlit("Control");
            assert("Control"@.len() != "Position 3D World"@.len());
        },
        Kind::DiaryRecord => {
            reveal_strlit("Diary Record");
            assert("Diary Record"@.len() != "Position 3D World"@.len());
        },
        Kind::Display => {
            reveal_strlit("Display");
            assert("Display"@.len() != "Position 3D World"@.len());
        },
        Kind::EdenEntity => {
            reveal_strlit("Eden Entity");
            assert("Eden Entity"@.len() != "Position 3D World"@.len());
        },
        Kind::EdenID => {
            reveal_strlit("Eden ID");
            assert("Eden ID"@.len() != "Position 3D World"@.len());
        },
        Kind::ExceptionHandle => {
            reveal_strlit("Exception Handle");
            assert("Exception Handle"@.len() != "Position 3D World"@.len());
        },
        Kind::ForType => {
            reveal_strlit("For Type");
            assert("For Type"@.len() != "Position 3D World"@.len());
        },
        Kind::Group => {
            reveal_strlit("Group");
            assert("Group"@.len() != "Position 3D World"@.len());
        },
        Kind::HashMapUnknown => {
            reveal_strlit("HashMap Unknown");
            assert("HashMap Unknown"@.len() != "Position 3D World"@.len());
        },
        Kind::HashMapKey => {
            reveal_strlit("HashMap Key");
            assert("HashMap Key"@.len() != "Position 3D World"@.len());
        },
        Kind::IfType => {
            reveal_strlit("If Type");
            assert("If Type"@.len() != "Position 3D World"@.len());
        },
        Kind::Location => {
            reveal_strlit("Location");
            assert("Location"@.len() != "Position 3D World"@.len());
        },
        Kind::Namespace => {
            reveal_strlit("Namespace");
            assert("Namespace"@.len() != "Position 3D World"@.len());
        },
        Kind::Nothing => {
            reveal_strlit("Nothing");
            assert("Nothing"@.len() != "Position 3D World"@.len());
        },
        Kind::Number => {
            reveal_strlit("Number");
            assert("Number"@.len() != "Position 3D World"@.len());
        },
        Kind::Object => {
            reveal_strlit("Object");
            assert("Object"@.len() != "Position 3D World"@.len());
        },
        Kind::ScriptHandle => {
            reveal_strlit("Script Handle");
            assert("Script Handle"@.len() != "Position 3D World"@.len());
        },
        Kind::Side => {
            reveal_strlit("Side");
            assert("Side"@.len() != "Position 3D World"@.len());
        },
        Kind::String => {
            reveal_strlit("String");
            assert("String"@.len() != "Position 3D World"@.len());
        },
        Kind::StructuredText => {
            reveal_strlit("Structured Text");
            assert("Structured Text"@.len() != "Position 3D World"@.len());
        },
        Kind::SwitchType => {
            reveal_strlit("Switch Type");
            assert("Switch Type"@.len() != "Position 3D World"@.len());
        },
        Kind::Task => {
            reveal_strlit("Task");
            assert("Task"@.len() != "Position 3D World"@.len());
        },
        Kind::TeamMember => {
            reveal_strlit("Team Member");
            assert("Team Member"@.len() != "Position 3D World"@.len());
        },
        Kind::Path => {
            reveal_strlit("Path");
            assert("Path"@.len() != "Position 3D World"@.len());
        },
        Kind::TreeViewPath => {
            reveal_strlit("Tree View Path");
            assert("Tree View Path"@.len() != "Position 3D World"@.len());
        },
        Kind::TurretPath => {
            reveal_strlit("Turret Path");
            assert("Turret Path"@.len() != "Position 3D World"@.len());
        },
        Kind::UnitLoadoutArray => {
            reveal_strlit("Unit Loadout Array");
            assert("Unit Loadout Array"@.len() != "Position 3D World"@.len());
        },
        Kind::ParticleArray => {
            reveal_strlit("Particle Array");
            assert("Particle Array"@.len() != "Position 3D World"@.len());
        },
        Kind::Position => {
            reveal_strlit("Position");
            assert("Position"@.len() != "Position 3D World"@.len());
        },
        Kind::Position2d => {
            reveal_strlit("Position 2D");
            assert("Position 2D"@.len() != "Position 3D World"@.len());
        },
        Kind::Position3d => {
            reveal_strlit("Position 3D");
            assert("Position 3D"@.len() != "Position 3D World"@.len());
        },
        Kind::Position3dASL => {
            reveal_strlit("Position 3D ASL");
            assert("Position 3D ASL"@.len() != "Position 3D World"@.len());
        },
        Kind::Position3dASLW => {
            reveal_strlit("Position 3D ASLW");
            assert("Position 3D ASLW"@.len() != "Position 3D World"@.len());
        },
        Kind::Position3dATL => {
            reveal_strlit("Position 3D ATL");
            assert("Position 3D ATL"@.len() != "Position 3D World"@.len());
        },
        Kind::Position3dAGL => {
            reveal_strlit("Position 3D AGL");
            assert("Position 3D AGL"@.len() != "Position 3D World"@.len());
        },
        Kind::Position3dAGLS => {
            reveal_strlit("Position 3D AGLS");
            assert("Position 3D AGLS"@.len() != "Position 3D World"@.len());
        },
        Kind::Position3dRelative => {
            reveal_strlit("Position 3D Relative");
            assert("Position 3D Relative"@.len() != "Position 3D World"@.len());
        },
        Kind::Position3dWorld => {},
        Kind::Vector => {
            reveal_strlit("Vector");
            assert("Vector"@.len() != "Position 3D World"@.len());
        },
        Kind::Vector2d => {
            reveal_strlit("Vector 2D");
            assert("Vector 2D"@.len() != "Position 3D World"@.len());
        },
        Kind::Vector3d => {
            reveal_strlit("Vector 3D");
            assert("Vector 3D"@.len() != "Position 3D World"@.len());
        },
        Kind::Waypoint => {
            reveal_strlit("Waypoint");
            assert("Waypoint"@.len() != "Position 3D World"@.len());
        },
        Kind::WhileType => {
            reveal_strlit("While Type");
            assert("While Type"@.len() != "Position 3D World"@.len());
        },
        Kind::WithType => {
            reveal_strlit("With Type");
            assert("With Type"@.len() != "Position 3D World"@.len());
        },
        Kind::Unknown => {
            reveal_strlit("Unknown");
            assert("Unknown"@.len() != "Position 3D World"@.len());
        },
    }
}

proof fn lemma_only_vector2d_written_so(k: Kind)
    ensures
        kind_text(k) == kind_text(Kind::Vector2d) ==> k == Kind::Vector2d,
{
    reveal_strlit("Vector 2D");
    match k {
        Kind::Anything => {
            reveal_strlit("Anything");
            assert("Anything"@.len() != "Vector 2D"@.len());
        },
        Kind::ArrayEmpty => {
            reveal_strlit("Array Empty");
            assert("Array Empty"@.len() != "Vector 2D"@.len());
        },
        Kind::ArrayDate => {
            reveal_strlit("Array Date");
            assert("Array Date"@.len() != "Vector 2D"@.len());
        },
        Kind::ArrayColor => {
            reveal_strlit("Array Color");
            assert("Array Color"@.len() != "Vector 2D"@.len());
        },
        Kind::ArrayColorRgb => {
            reveal_strlit("Array Color RGB");
            assert("Array Color RGB"@.len() != "Vector 2D"@.len());
        },
        Kind::ArrayColorRgba => {
            reveal_strlit("Array Color RGBA");
            assert("Array Color RGBA"@.len() != "Vector 2D"@.len());
        },
        Kind::ArrayEdenEntities => {
            reveal_strlit("Array Eden Entities");
            assert("Array Eden Entities"@.len() != "Vector 2D"@.len());
        },
        Kind::Boolean => {
            reveal_strlit("Boolean");
            assert("Boolean"@.len() != "Vector 2D"@.len());
        },
        Kind::Code => {
            reveal_strlit("Code");
            assert("Code"@.len() != "Vector 2D"@.len());
        },
        Kind::Config => {
            reveal_strlit("Config");
            assert("Config"@.len() != "Vector 2D"@.len());
        },
        Kind::Control => {
            reveal_strlit("Control");
            assert("Control"@.len() != "Vector 2D"@.len());
        },
        Kind::DiaryRecord => {
            reveal_strlit("Diary Record");
            assert("Diary Record"@.len() != "Vector 2D"@.len());
        },
        Kind::Display => {
            reveal_strlit("Display");
            assert("Display"@.len() != "Vector 2D"@.len());
        },
        Kind::EdenEntity => {
            reveal_strlit("Eden Entity");
            assert("Eden Entity"@.len() != "Vector 2D"@.len());
        },
        Kind::EdenID => {
            reveal_strlit("Eden ID");
            assert("Eden ID"@.len() != "Vector 2D"@.len());
        },
        Kind::ExceptionHandle => {
            reveal_strlit("Exception Handle");
            assert("Exception Handle"@.len() != "Vector 2D"@.len());
        },
        Kind::ForType => {
            reveal_strlit("For Type");
            assert("For Type"@.len() != "Vector 2D"@.len());
        },
        Kind::Group => {
            reveal_strlit("Group");
            assert("Group"@.len() != "Vector 2D"@.len());
        },
        Kind::HashMapUnknown => {
            reveal_strlit("HashMap Unknown");
            assert("HashMap Unknown"@.len() != "Vector 2D"@.len());
        },
        Kind::HashMapKey => {
            reveal_strlit("HashMap Key");
            assert("HashMap Key"@.len() != "Vector 2D"@.len());
        },
        Kind::IfType => {
            reveal_strlit("If Type");
            assert("If Type"@.len() != "Vector 2D"@.len());
        },
        Kind::Location => {
            reveal_strlit("Location");
            assert("Location"@.len() != "Vector 2D"@.len());
        },
        Kind::Namespace => {
            reveal_strlit("Namespace");
            assert("Namespace"@[0] != "Vector 2D"@[0]);
        },
        Kind::Nothing => {
            reveal_strlit("Nothing");
            assert("Nothing"@.len() != "Vector 2D"@.len());
        },
        Kind::Number => {
            reveal_strlit("Number");
            assert("Number"@.len() != "Vector 2D"@.len());
        },
        Kind::Object => {
            reveal_strlit("Object");
            assert("Object"@.len() != "Vector 2D"@.len());
        },
        Kind::ScriptHandle => {
            reveal_strlit("Script Handle");
            assert("Script Handle"@.len() != "Vector 2D"@.len());
        },
        Kind::Side => {
            reveal_strlit("Side");
            assert("Side"@.len() != "Vector 2D"@.len());
        },
        Kind::String => {
            reveal_strlit("String");
            assert("String"@.len() != "Vector 2D"@.len());
        },
        Kind::StructuredText => {
            reveal_strlit("Structured Text");
            assert("Structured Text"@.len() != "Vector 2D"@.len());
        },
        Kind::SwitchType => {
            reveal_strlit("Switch Type");
            assert("Switch Type"@.len() != "Vector 2D"@.len());
        },
        Kind::Task => {
            reveal_strlit("Task");
            assert("Task"@.len() != "Vector 2D"@.len());
        },
        Kind::TeamMember => {
            reveal_strlit("Team Member");
            assert("Team Member"@.len() != "Vector 2D"@.len());
        },
        Kind::Path => {
            reveal_strlit("Path");
            assert("Path"@.len() != "Vector 2D"@.len());
        },
        Kind::TreeViewPath => {
            reveal_strlit("Tree View Path");
            assert("Tree View Path"@.len() != "Vector 2D"@.len());
        },
        Kind::TurretPath => {
            reveal_strlit("Turret Path");
            assert("Turret Path"@.len() != "Vector 2D"@.len());
        },
        Kind::UnitLoadoutArray => {
            reveal_strlit("Unit Loadout Array");
            assert("Unit Loadout Array"@.len() != "Vector 2D"@.len());
        },
        Kind::ParticleArray => {
            reveal_strlit("Particle Array");
            assert("Particle Array"@.len() != "Vector 2D"@.len());
        },
        Kind::Position => {
            reveal_strlit("Position");
            assert("Position"@.len() != "Vector 2D"@.len());
        },
        Kind::Position2d => {
            reveal_strlit("Position 2D");
            assert("Position 2D"@.len() != "Vector 2D"@.len());
        },
        Kind::Position3d => {
            reveal_strlit("Position 3D");
            assert("Position 3D"@.len() != "Vector 2D"@.len());
        },
        Kind::Position3dASL => {
            reveal_strlit("Position 3D ASL");
            assert("Position 3D ASL"@.len() != "Vector 2D"@.len());
        },
        Kind::Position3dASLW => {
            reveal_strlit("Position 3D ASLW");
            assert("Position 3D ASLW"@.len() != "Vector 2D"@.len());
        },
        Kind::Position3dATL => {
            reveal_strlit("Position 3D ATL");
            assert("Position 3D ATL"@.len() != "Vector 2D"@.len());
        },
        Kind::Position3dAGL => {
            reveal_strlit("Position 3D AGL");
            assert("Position 3D AGL"@.len() != "Vector 2D"@.len());
        },
        Kind::Position3dAGLS => {
            reveal_strlit("Position 3D AGLS");
            assert("Position 3D AGLS"@.len() != "Vector 2D"@.len());
        },
        Kind::Position3dRelative => {
            reveal_strlit("Position 3D Relative");
            assert("Position 3D Relative"@.len() != "Vector 2D"@.len());
        },
        Kind::Position3dWorld => {
            reveal_strlit("Position 3D World");
            assert("Position 3D World"@.len() != "Vector 2D"@.len());
        },
        Kind::Vector => {
            reveal_strlit("Vector");
            assert("Vector"@.len() != "Vector 2D"@.len());
        },
        Kind::Vector2d => {},
        Kind::Vector3d => {
            reveal_strlit("Vector 3D");
            assert("Vector 3D"@[7] != "Vector 2D"@[7]);
        },
        Kind::Waypoint => {
            reveal_strlit("Waypoint");
            assert("Waypoint"@.len() != "Vector 2D"@.len());
        },
        Kind::WhileType => {
            reveal_strlit("While Type");
            assert("While Type"@.len() != "Vector 2D"@.len());
        },
        Kind::WithType => {
            reveal_strlit("With Type");
            assert("With Type"@[0] != "Vector 2D"@[0]);
        },
        Kind::Unknown => {
            reveal_strlit("Unknown");
            assert("Unknown"@.len() != "Vector 2D"@.len());
        },
    }
}

proof fn lemma_only_vector3d_written_so(k: Kind)
    ensures
        kind_text(k) == kind_text(Kind::Vector3d) ==> k == Kind::Vector3d,
{
    reveal_strlit("Vector 3D");
    match k {
        Kind::Anything => {
            reveal_strlit("Anything");
            assert("Anything"@.len() != "Vector 3D"@.len());
        },
        Kind::ArrayEmpty => {
            reveal_strlit("Array Empty");
            assert("Array Empty"@.len() != "Vector 3D"@.len());
        },
        Kind::ArrayDate => {
            reveal_strlit("Array Date");
            assert("Array Date"@.len() != "Vector 3D"@.len());
        },
        Kind::ArrayColor => {
            reveal_strlit("Array Color");
            assert("Array Color"@.len() != "Vector 3D"@.len());
        },
        Kind::ArrayColorRgb => {
            reveal_strlit("Array Color RGB");
            assert("Array Color RGB"@.len() != "Vector 3D"@.len());
        },
        Kind::ArrayColorRgba => {
            reveal_strlit("Array Color RGBA");
            assert("Array Color RGBA"@.len() != "Vector 3D"@.len());
        },
        Kind::ArrayEdenEntities => {
            reveal_strlit("Array Eden Entities");
            assert("Array Eden Entities"@.len() != "Vector 3D"@.len());
        },
        Kind::Boolean => {
            reveal_strlit("Boolean");
            assert("Boolean"@.len() != "Vector 3D"@.len());
        },
        Kind::Code => {
            reveal_strlit("Code");
            assert("Code"@.len() != "Vector 3D"@.len());
        },
        Kind::Config => {
            reveal_strlit("Config");
            assert("Config"@.len() != "Vector 3D"@.len());
        },
        Kind::Control => {
            reveal_strlit("Control");
            assert("Control"@.len() != "Vector 3D"@.len());
        },
        Kind::DiaryRecord => {
            reveal_strlit("Diary Record");
            assert("Diary Record"@.len() != "Vector 3D"@.len());
        },
        Kind::Display => {
            reveal_strlit("Display");
            assert("Display"@.len() != "Vector 3D"@.len());
        },
        Kind::EdenEntity => {
            reveal_strlit("Eden Entity");
            assert("Eden Entity"@.len() != "Vector 3D"@.len());
        },
        Kind::EdenID => {
            reveal_strlit("Eden ID");
            assert("Eden ID"@.len() != "Vector 3D"@.len());
        },
        Kind::ExceptionHandle => {
            reveal_strlit("Exception Handle");
            assert("Exception Handle"@.len() != "Vector 3D"@.len());
        },
        Kind::ForType => {
            reveal_strlit("For Type");
            assert("For Type"@.len() != "Vector 3D"@.len());
        },
        Kind::Group => {
            reveal_strlit("Group");
            assert("Group"@.len() != "Vector 3D"@.len());
        },
        Kind::HashMapUnknown => {
            reveal_strlit("HashMap Unknown");
            assert("HashMap Unknown"@.len() != "Vector 3D"@.len());
        },
        Kind::HashMapKey => {
            reveal_strlit("HashMap Key");
            assert("HashMap Key"@.len() != "Vector 3D"@.len());
        },
        Kind::IfType => {
            reveal_strlit("If Type");
            assert("If Type"@.len() != "Vector 3D"@.len());
        },
        Kind::Location => {
            reveal_strlit("Location");
            assert("Location"@.len() != "Vector 3D"@.len());
        },
        Kind::Namespace => {
            reveal_strlit("Namespace");
            assert("Namespace"@[0] != "Vector 3D"@[0]);
        },
        Kind::Nothing => {
            reveal_strlit("Nothing");
            assert("Nothing"@.len() != "Vector 3D"@.len());
        },
        Kind::Number => {
            reveal_strlit("Number");
            assert("Number"@.len() != "Vector 3D"@.len());
        },
        Kind::Object => {
            reveal_strlit("Object");
            assert("Object"@.len() != "Vector 3D"@.len());
        },
        Kind::ScriptHandle => {
            reveal_strlit("Script Handle");
            assert("Script Handle"@.len() != "Vector 3D"@.len());
        },
        Kind::Side => {
            reveal_strlit("Side");
            assert("Side"@.len() != "Vector 3D"@.len());
        },
        Kind::String => {
            reveal_strlit("String");
            assert("String"@.len() != "Vector 3D"@.len());
        },
        Kind::StructuredText => {
            reveal_strlit("Structured Text");
            assert("Structured Text"@.len() != "Vector 3D"@.len());
        },
        Kind::SwitchType => {
            reveal_strlit("Switch Type");
            assert("Switch Type"@.len() != "Vector 3D"@.len());
        },
        Kind::Task => {
            reveal_strlit("Task");
            assert("Task"@.len() != "Vector 3D"@.len());
        },
        Kind::TeamMember => {
            reveal_strlit("Team Member");
            assert("Team Member"@.len() != "Vector 3D"@.len());
        },
        Kind::Path => {
            reveal_strlit("Path");
            assert("Path"@.len() != "Vector 3D"@.len());
        },
        Kind::TreeViewPath => {
            reveal_strlit("Tree View Path");
            assert("Tree View Path"@.len() != "Vector 3D"@.len());
        },
        Kind::TurretPath => {
            reveal_strlit("Turret Path");
            assert("Turret Path"@.len() != "Vector 3D"@.len());
        },
        Kind::UnitLoadoutArray => {
            reveal_strlit("Unit Loadout Array");
            assert("Unit Loadout Array"@.len() != "Vector 3D"@.len());
        },
        Kind::ParticleArray => {
            reveal_strlit("Particle Array");
            assert("Particle Array"@.len() != "Vector 3D"@.len());
        },
        Kind::Position => {
            reveal_strlit("Position");
            assert("Position"@.len() != "Vector 3D"@.len());
        },
        Kind::Position2d => {
            reveal_strlit("Position 2D");
            assert("Position 2D"@.len() != "Vector 3D"@.len());
        },
        Kind::Position3d => {
            reveal_strlit("Position 3D");
            assert("Position 3D"@.len() != "Vector 3D"@.len());
        },
        Kind::Position3dASL => {
            reveal_strlit("Position 3D ASL");
            assert("Position 3D ASL"@.len() != "Vector 3D"@.len());
        },
        Kind::Position3dASLW => {
            reveal_strlit("Position 3D ASLW");
            assert("Position 3D ASLW"@.len() != "Vector 3D"@.len());
        },
        Kind::Position3dATL => {
            reveal_strlit("Position 3D ATL");
            assert("Position 3D ATL"@.len() != "Vector 3D"@.len());
        },
        Kind::Position3dAGL => {
            reveal_strlit("Position 3D AGL");
            assert("Position 3D AGL"@.len() != "Vector 3D"@.len());
        },
        Kind::Position3dAGLS => {
            reveal_strlit("Position 3D AGLS");
            assert("Position 3D AGLS"@.len() != "Vector 3D"@.len());
        },
        Kind::Position3dRelative => {
            reveal_strlit("Position 3D Relative");
            assert("Position 3D Relative"@.len() != "Vector 3D"@.len());
        },
        Kind::Position3dWorld => {
            reveal_strlit("Position 3D World");
            assert("Position 3D World"@.len() != "Vector 3D"@.len());
        },
        Kind::Vector => {
            reveal_strlit("Vector");
            assert("Vector"@.len() != "Vector 3D"@.len());
        },
        Kind::Vector2d => {
            reveal_strlit("Vector 2D");
            assert("Vector 2D"@[7] != "Vector 3D"@[7]);
        },
        Kind::Vector3d => {},
        Kind::Waypoint => {
            reveal_strlit("Waypoint");
            assert("Waypoint"@.len() != "Vector 3D"@.len());
        },
        Kind::WhileType => {
            reveal_strlit("While Type");
            assert("While Type"@.len() != "Vector 3D"@.len());
        },
        Kind::WithType => {
            reveal_strlit("With Type");
            assert("With Type"@[0] != "Vector 3D"@[0]);
        },
        Kind::Unknown => {
            reveal_strlit("Unknown");
            assert("Unknown"@.len() != "Vector 3D"@.len());
        },
    }
}

proof fn lemma_only_unknown_written_so(k: Kind)
    ensures
        kind_text(k) == kind_text(Kind::Unknown) ==> k == Kind::Unknown,
{
    reveal_strlit("Unknown");
    match k {
        Kind::Anything => {
            reveal_strlit("Anything");
            assert("Anything"@.len() != "Unknown"@.len());
        },
        Kind::ArrayEmpty => {
            reveal_strlit("Array Empty");
            assert("Array Empty"@.len() != "Unknown"@.len());
        },
        Kind::ArrayDate => {
            reveal_strlit("Array Date");
            assert("Array Date"@.len() != "Unknown"@.len());
        },
        Kind::ArrayColor => {
            reveal_strlit("Array Color");
            assert("Array Color"@.len() != "Unknown"@.len());
        },
        Kind::ArrayColorRgb => {
            reveal_strlit("Array Color RGB");
            assert("Array Color RGB"@.len() != "Unknown"@.len());
        },
        Kind::ArrayColorRgba => {
            reveal_strlit("Array Color RGBA");
            assert("Array Color RGBA"@.len() != "Unknown"@.len());
        },
        Kind::ArrayEdenEntities => {
            reveal_strlit("Array Eden Entities");
            assert("Array Eden Entities"@.len() != "Unknown"@.len());
        },
        Kind::Boolean => {
            reveal_strlit("Boolean");
            assert("Boolean"@[0] != "Unknown"@[0]);
        },
        Kind::Code => {
            reveal_strlit("Code");
            assert("Code"@.len() != "Unknown"@.len());
        },
        Kind::Config => {
            reveal_strlit("Config");
            assert("Config"@.len() != "Unknown"@.len());
        },
        Kind::Control => {
            reveal_strlit("Control");
            assert("Control"@[0] != "Unknown"@[0]);
        },
        Kind::DiaryRecord => {
            reveal_strlit("Diary Record");
            assert("Diary Record"@.len() != "Unknown"@.len());
        },
        Kind::Display => {
            reveal_strlit("Display");
            assert("Display"@[0] != "Unknown"@[0]);
        },
        Kind::EdenEntity => {
            reveal_strlit("Eden Entity");
            assert("Eden Entity"@.len() != "Unknown"@.len());
        },
        Kind::EdenID => {
            reveal_strlit("Eden ID");
            assert("Eden ID"@[0] != "Unknown"@[0]);
        },
        Kind::ExceptionHandle => {
            reveal_strlit("Exception Handle");
            assert("Exception Handle"@.len() != "Unknown"@.len());
        },
        Kind::ForType => {
            reveal_strlit("For Type");
            assert("For Type"@.len() != "Unknown"@.len());
        },
        Kind::Group => {
            reveal_strlit("Group");
            assert("Group"@.len() != "Unknown"@.len());
        },
        Kind::HashMapUnknown => {
            reveal_strlit("HashMap Unknown");
            assert("HashMap Unknown"@.len() != "Unknown"@.len());
        },
        Kind::HashMapKey => {
            reveal_strlit("HashMap Key");
            assert("HashMap Key"@.len() != "Unknown"@.len());
        },
        Kind::IfType => {
            reveal_strlit("If Type");
            assert("If Type"@[0] != "Unknown"@[0]);
        },
        Kind::Location => {
            reveal_strlit("Location");
            assert("Location"@.len() != "Unknown"@.len());
        },
        Kind::Namespace => {
            reveal_strlit("Namespace");
            assert("Namespace"@.len() != "Unknown"@.len());
        },
        Kind::Nothing => {
            reveal_strlit("Nothing");
            assert("Nothing"@[0] != "Unknown"@[0]);
        },
        Kind::Number => {
            reveal_strlit("Number");
            assert("Number"@.len() != "Unknown"@.len());
        },
        Kind::Object => {
            reveal_strlit("Object");
            assert("Object"@.len() != "Unknown"@.len());
        },
        Kind::ScriptHandle => {
            reveal_strlit("Script Handle");
            assert("Script Handle"@.len() != "Unknown"@.len());
        },
        Kind::Side => {
            reveal_strlit("Side");
            assert("Side"@.len() != "Unknown"@.len());
        },
        Kind::String => {
            reveal_strlit("String");
            assert("String"@.len() != "Unknown"@.len());
        },
        Kind::StructuredText => {
            reveal_strlit("Structured Text");
            assert("Structured Text"@.len() != "Unknown"@.len());
        },
        Kind::SwitchType => {
            reveal_strlit("Switch Type");
            assert("Switch Type"@.len() != "Unknown"@.len());
        },
        Kind::Task => {
            reveal_strlit("Task");
            assert("Task"@.len() != "Unknown"@.len());
        },
        Kind::TeamMember => {
            reveal_strlit("Team Member");
            assert("Team Member"@.len() != "Unknown"@.len());
        },
        Kind::Path => {
            reveal_strlit("Path");
            assert("Path"@.len() != "Unknown"@.len());
        },
        Kind::TreeViewPath => {
            reveal_strlit("Tree View Path");
            assert("Tree View Path"@.len() != "Unknown"@.len());
        },
        Kind::TurretPath => {
            reveal_strlit("Turret Path");
            assert("Turret Path"@.len() != "Unknown"@.len());
        },
        Kind::UnitLoadoutArray => {
            reveal_strlit("Unit Loadout Array");
            assert("Unit Loadout Array"@.len() != "Unknown"@.len());
        },
        Kind::ParticleArray => {
            reveal_strlit("Particle Array");
            assert("Particle Array"@.len() != "Unknown"@.len());
        },
        Kind::Position => {
            reveal_strlit("Position");
            assert("Position"@.len() != "Unknown"@.len());
        },
        Kind::Position2d => {
            reveal_strlit("Position 2D");
            assert("Position 2D"@.len() != "Unknown"@.len());
        },
        Kind::Position3d => {
            reveal_strlit("Position 3D");
            assert("Position 3D"@.len() != "Unknown"@.len());
        },
        Kind::Position3dASL => {
            reveal_strlit("Position 3D ASL");
            assert("Position 3D ASL"@.len() != "Unknown"@.len());
        },
        Kind::Position3dASLW => {
            reveal_strlit("Position 3D ASLW");
            assert("Position 3D ASLW"@.len() != "Unknown"@.len());
        },
        Kind::Position3dATL => {
            reveal_strlit("Position 3D ATL");
            assert("Position 3D ATL"@.len() != "Unknown"@.len());
        },
        Kind::Position3dAGL => {
            reveal_strlit("Position 3D AGL");
            assert("Position 3D AGL"@.len() != "Unknown"@.len());
        },
        Kind::Position3dAGLS => {
            reveal_strlit("Position 3D AGLS");
            assert("Position 3D AGLS"@.len() != "Unknown"@.len());
        },
        Kind::Position3dRelative => {
            reveal_strlit("Position 3D Relative");
            assert("Position 3D Relative"@.len() != "Unknown"@.len());
        },
        Kind::Position3dWorld => {
            reveal_strlit("Position 3D World");
            assert("Position 3D World"@.len() != "Unknown"@.len());
        },
        Kind::Vector => {
            reveal_strlit("Vector");
            assert("Vector"@.len() != "Unknown"@.len());
        },
        Kind::Vector2d => {
            reveal_strlit("Vector 2D");
            assert("Vector 2D"@.len() != "Unknown"@.len());
        },
        Kind::Vector3d => {
            reveal_strlit("Vector 3D");
            assert("Vector 3D"@.len() != "Unknown"@.len());
        },
        Kind::Waypoint => {
            reveal_strlit("Waypoint");
            assert("Waypoint"@.len() != "Unknown"@.len());
        },
        Kind::WhileType => {
            reveal_strlit("While Type");
            assert("While Type"@.len() != "Unknown"@.len());
        },
        Kind::WithType => {
            reveal_strlit("With Type");
            assert("With Type"@.len() != "Unknown"@.len());
        },
        Kind::Unknown => {},
    }
}

/// Distinct types are written with distinct names.
pub proof fn lemma_kind_names_distinct(k1: Kind, k2: Kind)
    ensures
        kind_text(k1) == kind_text(k2) ==> k1 == k2,
{
    match k1 {
        Kind::ArrayEmpty => lemma_only_array_empty_written_so(k2),
        Kind::ArrayDate => lemma_only_array_date_written_so(k2),
        Kind::ArrayColor => lemma_only_array_color_written_so(k2),
        Kind::ArrayColorRgb => lemma_only_array_color_rgb_written_so(k2),
        Kind::ArrayColorRgba => lemma_only_array_color_rgba_written_so(k2),
        Kind::ArrayEdenEntities => lemma_only_array_eden_entities_written_so(k2),
        Kind::HashMapUnknown => lemma_only_hash_map_unknown_written_so(k2),
        Kind::Path => lemma_only_path_written_so(k2),
        Kind::UnitLoadoutArray => lemma_only_unit_loadout_array_written_so(k2),
        Kind::Position2d => lemma_only_position2d_written_so(k2),
        Kind::Position3d => lemma_only_position3d_written_so(k2),
        Kind::Position3dASL => lemma_only_position3d_a_s_l_written_so(k2),
        Kind::Position3dASLW => lemma_only_position3d_a_s_l_w_written_so(k2),
        Kind::Position3dATL => lemma_only_position3d_a_t_l_written_so(k2),
        Kind::Position3dAGL => lemma_only_position3d_a_g_l_written_so(k2),
        Kind::Position3dAGLS => lemma_only_position3d_a_g_l_s_written_so(k2),
        Kind::Position3dRelative => lemma_only_position3d_relative_written_so(k2),
        Kind::Position3dWorld => lemma_only_position3d_world_written_so(k2),
        Kind::Vector2d => lemma_only_vector2d_written_so(k2),
        Kind::Vector3d => lemma_only_vector3d_written_so(k2),
        Kind::Unknown => lemma_only_unknown_written_so(k2),
        _ => match k2 {
        Kind::ArrayEmpty => lemma_only_array_empty_written_so(k1),
            Kind::ArrayDate => lemma_only_array_date_written_so(k1),
            Kind::ArrayColor => lemma_only_array_color_written_so(k1),
            Kind::ArrayColorRgb => lemma_only_array_color_rgb_written_so(k1),
            Kind::ArrayColorRgba => lemma_only_array_color_rgba_written_so(k1),
            Kind::ArrayEdenEntities => lemma_only_array_eden_entities_written_so(k1),
            Kind::HashMapUnknown => lemma_only_hash_map_unknown_written_so(k1),
            Kind::Path => lemma_only_path_written_so(k1),
            Kind::UnitLoadoutArray => lemma_only_unit_loadout_array_written_so(k1),
            Kind::Position2d => lemma_only_position2d_written_so(k1),
            Kind::Position3d => lemma_only_position3d_written_so(k1),
            Kind::Position3dASL => lemma_only_position3d_a_s_l_written_so(k1),
            Kind::Position3dASLW => lemma_only_position3d_a_s_l_w_written_so(k1),
            Kind::Position3dATL => lemma_only_position3d_a_t_l_written_so(k1),
            Kind::Position3dAGL => lemma_only_position3d_a_g_l_written_so(k1),
            Kind::Position3dAGLS => lemma_only_position3d_a_g_l_s_written_so(k1),
            Kind::Position3dRelative => lemma_only_position3d_relative_written_so(k1),
            Kind::Position3dWorld => lemma_only_position3d_world_written_so(k1),
            Kind::Vector2d => lemma_only_vector2d_written_so(k1),
            Kind::Vector3d => lemma_only_vector3d_written_so(k1),
            Kind::Unknown => lemma_only_unknown_written_so(k1),
            _ => {
                lemma_kind_names_read_back(k1);
                lemma_kind_names_read_back(k2);
            },
        },
    }
}


/// The types whose wiki name is also written without spaces.
pub open spec fn spelled_both_ways(k: Kind) -> bool {
    k is DiaryRecord || k is EdenEntity || k is EdenID || k is ExceptionHandle || k is ForType || k is HashMapKey || k is IfType || k is ScriptHandle || k is StructuredText || k is SwitchType || k is TeamMember || k is TurretPath || k is ParticleArray || k is WhileType || k is WithType
}

proof fn lemma_reads_squeezed_diary_record()
    ensures
        kind_of_name(wiki_spelling(kind_text(Kind::DiaryRecord), true)) == Some(Kind::DiaryRecord),
{
    reveal_strlit("array|empty array");
    reveal_strlit("anything");
    reveal_strlit("boolean");
    reveal_strlit("code");
    reveal_strlit("config");
    reveal_strlit("control");
    reveal_strlit("diary record");
    reveal_strlit("diaryrecord");
    reveal_strlit("Diary Record");
    reveal_with_fuel(wiki_spelling, 13);
    assert(wiki_spelling(kind_text(Kind::DiaryRecord), true) =~= "diaryrecord"@);

}

proof fn lemma_reads_squeezed_eden_entity()
    ensures
        kind_of_name(wiki_spelling(kind_text(Kind::EdenEntity), true)) == Some(Kind::EdenEntity),
{
    reveal_strlit("array|empty array");
    reveal_strlit("anything");
    reveal_strlit("boolean");
    reveal_strlit("code");
    reveal_strlit("config");
    reveal_strlit("control");
    reveal_strlit("diary record");
    reveal_strlit("diaryrecord");
    reveal_strlit("display");
    reveal_strlit("array of eden entities");
    reveal_strlit("eden entity");
    reveal_strlit("edenentity");
    reveal_strlit("Eden Entity");
    reveal_with_fuel(wiki_spelling, 12);
    assert(wiki_spelling(kind_text(Kind::EdenEntity), true) =~= "edenentity"@);

}

proof fn lemma_reads_squeezed_eden_i_d()
    ensures
        kind_of_name(wiki_spelling(kind_text(Kind::EdenID), true)) == Some(Kind::EdenID),
{
    reveal_strlit("array|empty array");
    reveal_strlit("anything");
    reveal_strlit("boolean");
    reveal_strlit("code");
    reveal_strlit("config");
    reveal_strlit("control");
    reveal_strlit("diary record");
    reveal_strlit("diaryrecord");
    reveal_strlit("display");
    reveal_strlit("array of eden entities");
    reveal_strlit("eden entity");
    reveal_strlit("edenentity");
    reveal_strlit("eden id");
    reveal_strlit("edenid");
    reveal_strlit("Eden ID");
    reveal_with_fuel(wiki_spelling, 8);
    assert(wiki_spelling(kind_text(Kind::EdenID), true) =~= "edenid"@);
    assert("edenid"@[0] != "config"@[0]);
}

proof fn lemma_reads_squeezed_exception_handle()
    ensures
        kind_of_name(wiki_spelling(kind_text(Kind::ExceptionHandle), true)) == Some(Kind::ExceptionHandle),
{
    reveal_strlit("array|empty array");
    reveal_strlit("anything");
    reveal_strlit("boolean");
    reveal_strlit("code");
    reveal_strlit("config");
    reveal_strlit("control");
    reveal_strlit("diary record");
    reveal_strlit("diaryrecord");
    reveal_strlit("display");
    reveal_strlit("array of eden entities");
    reveal_strlit("eden entity");
    reveal_strlit("edenentity");
    reveal_strlit("eden id");
    reveal_strlit("edenid");
    reveal_strlit("exception handling");
    reveal_strlit("exception handle");
    reveal_strlit("exceptionhandle");
    reveal_strlit("Exception Handle");
    reveal_with_fuel(wiki_spelling, 17);
    assert(wiki_spelling(kind_text(Kind::ExceptionHandle), true) =~= "exceptionhandle"@);

}

proof fn lemma_reads_squeezed_for_type()
    ensures
        kind_of_name(wiki_spelling(kind_text(Kind::ForType), true)) == Some(Kind::ForType),
{
    reveal_strlit("array|empty array");
    reveal_strlit("anything");
    reveal_strlit("boolean");
    reveal_strlit("code");
    reveal_strlit("config");
    reveal_strlit("control");
    reveal_strlit("diary record");
    reveal_strlit("diaryrecord");
    reveal_strlit("display");
    reveal_strlit("array of eden entities");
    reveal_strlit("eden entity");
    reveal_strlit("edenentity");
    reveal_strlit("eden id");
    reveal_strlit("edenid");
    reveal_strlit("exception handling");
    reveal_strlit("exception handle");
    reveal_strlit("exceptionhandle");
    reveal_strlit("for type");
    reveal_strlit("fortype");
    reveal_strlit("For Type");
    reveal_with_fuel(wiki_spelling, 9);
    assert(wiki_spelling(kind_text(Kind::ForType), true) =~= "fortype"@);
    assert("fortype"@[0] != "boolean"@[0]);
    assert("fortype"@[0] != "control"@[0]);
    assert("fortype"@[0] != "display"@[0]);
    assert("fortype"@[0] != "eden id"@[0]);
}

proof fn lemma_reads_squeezed_hash_map_key()
    ensures
        kind_of_name(wiki_spelling(kind_text(Kind::HashMapKey), true)) == Some(Kind::HashMapKey),
{
    reveal_strlit("array|empty array");
    reveal_strlit("anything");
    reveal_strlit("boolean");
    reveal_strlit("code");
    reveal_strlit("config");
    reveal_strlit("control");
    reveal_strlit("diary record");
    reveal_strlit("diaryrecord");
    reveal_strlit("display");
    reveal_strlit("array of eden entities");
    reveal_strlit("eden entity");
    reveal_strlit("edenentity");
    reveal_strlit("eden id");
    reveal_strlit("edenid");
    reveal_strlit("exception handling");
    reveal_strlit("exception handle");
    reveal_strlit("exceptionhandle");
    reveal_strlit("for type");
    reveal_strlit("fortype");
    reveal_strlit("group");
    reveal_strlit("hashmap");
    reveal_strlit("hashmapkey");
    reveal_strlit("HashMap Key");
    reveal_with_fuel(wiki_spelling, 12);
    assert(wiki_spelling(kind_text(Kind::HashMapKey), true) =~= "hashmapkey"@);
    assert("hashmapkey"@[0] != "edenentity"@[0]);
}

proof fn lemma_reads_squeezed_if_type()
    ensures
        kind_of_name(wiki_spelling(kind_text(Kind::IfType), true)) == Some(Kind::IfType),
{
    reveal_strlit("array|empty array");
    reveal_strlit("anything");
    reveal_strlit("boolean");
    reveal_strlit("code");
    reveal_strlit("config");
    reveal_strlit("control");
    reveal_strlit("diary record");
    reveal_strlit("diaryrecord");
    reveal_strlit("display");
    reveal_strlit("array of eden entities");
    reveal_strlit("eden entity");
    reveal_strlit("edenentity");
    reveal_strlit("eden id");
    reveal_strlit("edenid");
    reveal_strlit("exception handling");
    reveal_strlit("exception handle");
    reveal_strlit("exceptionhandle");
    reveal_strlit("for type");
    reveal_strlit("fortype");
    reveal_strlit("group");
    reveal_strlit("hashmap");
    reveal_strlit("hashmapkey");
    reveal_strlit("hashmap key");
    reveal_strlit("if type");
    reveal_strlit("iftype");
    reveal_strlit("If Type");
    reveal_with_fuel(wiki_spelling, 8);
    assert(wiki_spelling(kind_text(Kind::IfType), true) =~= "iftype"@);
    assert("iftype"@[0] != "config"@[0]);
    assert("iftype"@[0] != "edenid"@[0]);
}

proof fn lemma_reads_squeezed_script_handle()
    ensures
        kind_of_name(wiki_spelling(kind_text(Kind::ScriptHandle), true)) == Some(Kind::ScriptHandle),
{
    reveal_strlit("array|empty array");
    reveal_strlit("anything");
    reveal_strlit("boolean");
    reveal_strlit("code");
    reveal_strlit("config");
    reveal_strlit("control");
    reveal_strlit("diary record");
    reveal_strlit("diaryrecord");
    reveal_strlit("display");
    reveal_strlit("array of eden entities");
    reveal_strlit("eden entity");
    reveal_strlit("edenentity");
    reveal_strlit("eden id");
    reveal_strlit("edenid");
    reveal_strlit("exception handling");
    reveal_strlit("exception handle");
    reveal_strlit("exceptionhandle");
    reveal_strlit("for type");
    reveal_strlit("fortype");
    reveal_strlit("group");
    reveal_strlit("hashmap");
    reveal_strlit("hashmapkey");
    reveal_strlit("hashmap key");
    reveal_strlit("if type");
    reveal_strlit("iftype");
    reveal_strlit("location");
    reveal_strlit("namespace");
    reveal_strlit("nothing");
    reveal_strlit("number");
    reveal_strlit("object");
    reveal_strlit("script handle");
    reveal_strlit("scripthandle");
    reveal_strlit("Script Handle");
    reveal_with_fuel(wiki_spelling, 14);
    assert(wiki_spelling(kind_text(Kind::ScriptHandle), true) =~= "scripthandle"@);
    assert("scripthandle"@[0] != "diary record"@[0]);
}

proof fn lemma_reads_squeezed_structured_text()
    ensures
        kind_of_name(wiki_spelling(kind_text(Kind::StructuredText), true)) == Some(Kind::StructuredText),
{
    reveal_strlit("array|empty array");
    reveal_strlit("anything");
    reveal_strlit("boolean");
    reveal_strlit("code");
    reveal_strlit("config");
    reveal_strlit("control");
    reveal_strlit("diary record");
    reveal_strlit("diaryrecord");
    reveal_strlit("display");
    reveal_strlit("array of eden entities");
    reveal_strlit("eden entity");
    reveal_strlit("edenentity");
    reveal_strlit("eden id");
    reveal_strlit("edenid");
    reveal_strlit("exception handling");
    reveal_strlit("exception handle");
    reveal_strlit("exceptionhandle");
    reveal_strlit("for type");
    reveal_strlit("fortype");
    reveal_strlit("group");
    reveal_strlit("hashmap");
    reveal_strlit("hashmapkey");
    reveal_strlit("hashmap key");
    reveal_strlit("if type");
    reveal_strlit("iftype");
    reveal_strlit("location");
    reveal_strlit("namespace");
    reveal_strlit("nothing");
    reveal_strlit("number");
    reveal_strlit("object");
    reveal_strlit("script handle");
    reveal_strlit("scripthandle");
    reveal_strlit("side");
    reveal_strlit("string");
    reveal_strlit("structured text");
    reveal_strlit("structuredtext");
    reveal_strlit("Structured Text");
    reveal_with_fuel(wiki_spelling, 16);
    assert(wiki_spelling(kind_text(Kind::StructuredText), true) =~= "structuredtext"@);

}

proof fn lemma_reads_squeezed_switch_type()
    ensures
        kind_of_name(wiki_spelling(kind_text(Kind::SwitchType), true)) == Some(Kind::SwitchType),
{
    reveal_strlit("array|empty array");
    reveal_strlit("anything");
    reveal_strlit("boolean");
    reveal_strlit("code");
    reveal_strlit("config");
    reveal_strlit("control");
    reveal_strlit("diary record");
    reveal_strlit("diaryrecord");
    reveal_strlit("display");
    reveal_strlit("array of eden entities");
    reveal_strlit("eden entity");
    reveal_strlit("edenentity");
    reveal_strlit("eden id");
    reveal_strlit("edenid");
    reveal_strlit("exception handling");
    reveal_strlit("exception handle");
    reveal_strlit("exceptionhandle");
    reveal_strlit("for type");
    reveal_strlit("fortype");
    reveal_strlit("group");
    reveal_strlit("hashmap");
    reveal_strlit("hashmapkey");
    reveal_strlit("hashmap key");
    reveal_strlit("if type");
    reveal_strlit("iftype");
    reveal_strlit("location");
    reveal_strlit("namespace");
    reveal_strlit("nothing");
    reveal_strlit("number");
    reveal_strlit("object");
    reveal_strlit("script handle");
    reveal_strlit("scripthandle");
    reveal_strlit("side");
    reveal_strlit("string");
    reveal_strlit("structured text");
    reveal_strlit("structuredtext");
    reveal_strlit("switch type");
    reveal_strlit("switchtype");
    reveal_strlit("Switch Type");
    reveal_with_fuel(wiki_spelling, 12);
    assert(wiki_spelling(kind_text(Kind::SwitchType), true) =~= "switchtype"@);
    assert("switchtype"@[0] != "edenentity"@[0]);
    assert("switchtype"@[0] != "hashmapkey"@[0]);
}

proof fn lemma_reads_squeezed_team_member()
    ensures
        kind_of_name(wiki_spelling(kind_text(Kind::TeamMember), true)) == Some(Kind::TeamMember),
{
    reveal_strlit("array|empty array");
    reveal_strlit("anything");
    reveal_strlit("boolean");
    reveal_strlit("code");
    reveal_strlit("config");
    reveal_strlit("control");
    reveal_strlit("diary record");
    reveal_strlit("diaryrecord");
    reveal_strlit("display");
    reveal_strlit("array of eden entities");
    reveal_strlit("eden entity");
    reveal_strlit("edenentity");
    reveal_strlit("eden id");
    reveal_strlit("edenid");
    reveal_strlit("exception handling");
    reveal_strlit("exception handle");
    reveal_strlit("exceptionhandle");
    reveal_strlit("for type");
    reveal_strlit("fortype");
    reveal_strlit("group");
    reveal_strlit("hashmap");
    reveal_strlit("hashmapkey");
    reveal_strlit("hashmap key");
    reveal_strlit("if type");
    reveal_strlit("iftype");
    reveal_strlit("location");
    reveal_strlit("namespace");
    reveal_strlit("nothing");
    reveal_strlit("number");
    reveal_strlit("object");
    reveal_strlit("script handle");
    reveal_strlit("scripthandle");
    reveal_strlit("side");
    reveal_strlit("string");
    reveal_strlit("structured text");
    reveal_strlit("structuredtext");
    reveal_strlit("switch type");
    reveal_strlit("switchtype");
    reveal_strlit("task");
    reveal_strlit("team member");
    reveal_strlit("teammember");
    reveal_strlit("Team Member");
    reveal_with_fuel(wiki_spelling, 12);
    assert(wiki_spelling(kind_text(Kind::TeamMember), true) =~= "teammember"@);
    assert("teammember"@[0] != "edenentity"@[0]);
    assert("teammember"@[0] != "hashmapkey"@[0]);
    assert("teammember"@[0] != "switchtype"@[0]);
}

proof fn lemma_reads_squeezed_turret_path()
    ensures
        kind_of_name(wiki_spelling(kind_text(Kind::TurretPath), true)) == Some(Kind::TurretPath),
{
    reveal_strlit("array|empty array");
    reveal_strlit("anything");
    reveal_strlit("boolean");
    reveal_strlit("code");
    reveal_strlit("config");
    reveal_strlit("control");
    reveal_strlit("diary record");
    reveal_strlit("diaryrecord");
    reveal_strlit("display");
    reveal_strlit("array of eden entities");
    reveal_strlit("eden entity");
    reveal_strlit("edenentity");
    reveal_strlit("eden id");
    reveal_strlit("edenid");
    reveal_strlit("exception handling");
    reveal_strlit("exception handle");
    reveal_strlit("exceptionhandle");
    reveal_strlit("for type");
    reveal_strlit("fortype");
    reveal_strlit("group");
    reveal_strlit("hashmap");
    reveal_strlit("hashmapkey");
    reveal_strlit("hashmap key");
    reveal_strlit("if type");
    reveal_strlit("iftype");
    reveal_strlit("location");
    reveal_strlit("namespace");
    reveal_strlit("nothing");
    reveal_strlit("number");
    reveal_strlit("object");
    reveal_strlit("script handle");
    reveal_strlit("scripthandle");
    reveal_strlit("side");
    reveal_strlit("string");
    reveal_strlit("structured text");
    reveal_strlit("structuredtext");
    reveal_strlit("switch type");
    reveal_strlit("switchtype");
    reveal_strlit("task");
    reveal_strlit("team member");
    reveal_strlit("teammember");
    reveal_strlit("path");
    reveal_strlit("tree view path");
    reveal_strlit("date");
    reveal_strlit("color|color (rgb)");
    reveal_strlit("color rgb");
    reveal_strlit("colorrgb");
    reveal_strlit("color|color (rgba)");
    reveal_strlit("color rgba");
    reveal_strlit("colorrgba");
    reveal_strlit("color");
    reveal_strlit("turret path");
    reveal_strlit("turretpath");
    reveal_strlit("Turret Path");
    reveal_with_fuel(wiki_spelling, 12);
    assert(wiki_spelling(kind_text(Kind::TurretPath), true) =~= "turretpath"@);
    assert("turretpath"@[0] != "edenentity"@[0]);
    assert("turretpath"@[0] != "hashmapkey"@[0]);
    assert("turretpath"@[0] != "switchtype"@[0]);
    assert("turretpath"@[1] != "teammember"@[1]);
    assert("turretpath"@[0] != "color rgba"@[0]);
}

proof fn lemma_reads_squeezed_particle_array()
    ensures
        kind_of_name(wiki_spelling(kind_text(Kind::ParticleArray), true)) == Some(Kind::ParticleArray),
{
    reveal_strlit("array|empty array");
    reveal_strlit("anything");
    reveal_strlit("boolean");
    reveal_strlit("code");
    reveal_strlit("config");
    reveal_strlit("control");
    reveal_strlit("diary record");
    reveal_strlit("diaryrecord");
    reveal_strlit("display");
    reveal_strlit("array of eden entities");
    reveal_strlit("eden entity");
    reveal_strlit("edenentity");
    reveal_strlit("eden id");
    reveal_strlit("edenid");
    reveal_strlit("exception handling");
    reveal_strlit("exception handle");
    reveal_strlit("exceptionhandle");
    reveal_strlit("for type");
    reveal_strlit("fortype");
    reveal_strlit("group");
    reveal_strlit("hashmap");
    reveal_strlit("hashmapkey");
    reveal_strlit("hashmap key");
    reveal_strlit("if type");
    reveal_strlit("iftype");
    reveal_strlit("location");
    reveal_strlit("namespace");
    reveal_strlit("nothing");
    reveal_strlit("number");
    reveal_strlit("object");
    reveal_strlit("script handle");
    reveal_strlit("scripthandle");
    reveal_strlit("side");
    reveal_strlit("string");
    reveal_strlit("structured text");
    reveal_strlit("structuredtext");
    reveal_strlit("switch type");
    reveal_strlit("switchtype");
    reveal_strlit("task");
    reveal_strlit("team member");
    reveal_strlit("teammember");
    reveal_strlit("path");
    reveal_strlit("tree view path");
    reveal_strlit("date");
    reveal_strlit("color|color (rgb)");
    reveal_strlit("color rgb");
    reveal_strlit("colorrgb");
    reveal_strlit("color|color (rgba)");
    reveal_strlit("color rgba");
    reveal_strlit("colorrgba");
    reveal_strlit("color");
    reveal_strlit("turret path");
    reveal_strlit("turretpath");
    reveal_strlit("unitloadoutarray");
    reveal_strlit("position");
    reveal_strlit("position#introduction|position2d");
    reveal_strlit("position#position2d");
    reveal_strlit("position2d");
    reveal_strlit("position#introduction|position3d");
    reveal_strlit("position#position3d");
    reveal_strlit("position3d");
    reveal_strlit("position#positionasl");
    reveal_strlit("positionasl");
    reveal_strlit("position#positionaslw");
    reveal_strlit("positionaslw");
    reveal_strlit("positionworld");
    reveal_strlit("position#positionatl");
    reveal_strlit("positionatl");
    reveal_strlit("position#positionagl");
    reveal_strlit("positionagl");
    reveal_strlit("position#positionagls");
    reveal_strlit("positionagls");
    reveal_strlit("position#positionrelative");
    reveal_strlit("positionrelative");
    reveal_strlit("vector");
    reveal_strlit("vector2d");
    reveal_strlit("vector3d");
    reveal_strlit("waypoint");
    reveal_strlit("while type");
    reveal_strlit("whiletype");
    reveal_strlit("with type");
    reveal_strlit("withtype");
    reveal_strlit("particlearray");
    reveal_strlit("Particle Array");
    reveal_with_fuel(wiki_spelling, 15);
    assert(wiki_spelling(kind_text(Kind::ParticleArray), true) =~= "particlearray"@);
    assert("particlearray"@[0] != "script handle"@[0]);
    assert("particlearray"@[1] != "positionworld"@[1]);
}

proof fn lemma_reads_squeezed_while_type()
    ensures
        kind_of_name(wiki_spelling(kind_text(Kind::WhileType), true)) == Some(Kind::WhileType),
{
    reveal_strlit("array|empty array");
    reveal_strlit("anything");
    reveal_strlit("boolean");
    reveal_strlit("code");
    reveal_strlit("config");
    reveal_strlit("control");
    reveal_strlit("diary record");
    reveal_strlit("diaryrecord");
    reveal_strlit("display");
    reveal_strlit("array of eden entities");
    reveal_strlit("eden entity");
    reveal_strlit("edenentity");
    reveal_strlit("eden id");
    reveal_strlit("edenid");
    reveal_strlit("exception handling");
    reveal_strlit("exception handle");
    reveal_strlit("exceptionhandle");
    reveal_strlit("for type");
    reveal_strlit("fortype");
    reveal_strlit("group");
    reveal_strlit("hashmap");
    reveal_strlit("hashmapkey");
    reveal_strlit("hashmap key");
    reveal_strlit("if type");
    reveal_strlit("iftype");
    reveal_strlit("location");
    reveal_strlit("namespace");
    reveal_strlit("nothing");
    reveal_strlit("number");
    reveal_strlit("object");
    reveal_strlit("script handle");
    reveal_strlit("scripthandle");
    reveal_strlit("side");
    reveal_strlit("string");
    reveal_strlit("structured text");
    reveal_strlit("structuredtext");
    reveal_strlit("switch type");
    reveal_strlit("switchtype");
    reveal_strlit("task");
    reveal_strlit("team member");
    reveal_strlit("teammember");
    reveal_strlit("path");
    reveal_strlit("tree view path");
    reveal_strlit("date");
    reveal_strlit("color|color (rgb)");
    reveal_strlit("color rgb");
    reveal_strlit("colorrgb");
    reveal_strlit("color|color (rgba)");
    reveal_strlit("color rgba");
    reveal_strlit("colorrgba");
    reveal_strlit("color");
    reveal_strlit("turret path");
    reveal_strlit("turretpath");
    reveal_strlit("unitloadoutarray");
    reveal_strlit("position");
    reveal_strlit("position#introduction|position2d");
    reveal_strlit("position#position2d");
    reveal_strlit("position2d");
    reveal_strlit("position#introduction|position3d");
    reveal_strlit("position#position3d");
    reveal_strlit("position3d");
    reveal_strlit("position#positionasl");
    reveal_strlit("positionasl");
    reveal_strlit("position#positionaslw");
    reveal_strlit("positionaslw");
    reveal_strlit("positionworld");
    reveal_strlit("position#positionatl");
    reveal_strlit("positionatl");
    reveal_strlit("position#positionagl");
    reveal_strlit("positionagl");
    reveal_strlit("position#positionagls");
    reveal_strlit("positionagls");
    reveal_strlit("position#positionrelative");
    reveal_strlit("positionrelative");
    reveal_strlit("vector");
    reveal_strlit("vector2d");
    reveal_strlit("vector3d");
    reveal_strlit("waypoint");
    reveal_strlit("while type");
    reveal_strlit("whiletype");
    reveal_strlit("While Type");
    reveal_with_fuel(wiki_spelling, 11);
    assert(wiki_spelling(kind_text(Kind::WhileType), true) =~= "whiletype"@);
    assert("whiletype"@[0] != "namespace"@[0]);
    assert("whiletype"@[0] != "color rgb"@[0]);
    assert("whiletype"@[0] != "colorrgba"@[0]);
}

proof fn lemma_reads_squeezed_with_type()
    ensures
        kind_of_name(wiki_spelling(kind_text(Kind::WithType), true)) == Some(Kind::WithType),
{
    reveal_strlit("array|empty array");
    reveal_strlit("anything");
    reveal_strlit("boolean");
    reveal_strlit("code");
    reveal_strlit("config");
    reveal_strlit("control");
    reveal_strlit("diary record");
    reveal_strlit("diaryrecord");
    reveal_strlit("display");
    reveal_strlit("array of eden entities");
    reveal_strlit("eden entity");
    reveal_strlit("edenentity");
    reveal_strlit("eden id");
    reveal_strlit("edenid");
    reveal_strlit("exception handling");
    reveal_strlit("exception handle");
    reveal_strlit("exceptionhandle");
    reveal_strlit("for type");
    reveal_strlit("fortype");
    reveal_strlit("group");
    reveal_strlit("hashmap");
    reveal_strlit("hashmapkey");
    reveal_strlit("hashmap key");
    reveal_strlit("if type");
    reveal_strlit("iftype");
    reveal_strlit("location");
    reveal_strlit("namespace");
    reveal_strlit("nothing");
    reveal_strlit("number");
    reveal_strlit("object");
    reveal_strlit("script handle");
    reveal_strlit("scripthandle");
    reveal_strlit("side");
    reveal_strlit("string");
    reveal_strlit("structured text");
    reveal_strlit("structuredtext");
    reveal_strlit("switch type");
    reveal_strlit("switchtype");
    reveal_strlit("task");
    reveal_strlit("team member");
    reveal_strlit("teammember");
    reveal_strlit("path");
    reveal_strlit("tree view path");
    reveal_strlit("date");
    reveal_strlit("color|color (rgb)");
    reveal_strlit("color rgb");
    reveal_strlit("colorrgb");
    reveal_strlit("color|color (rgba)");
    reveal_strlit("color rgba");
    reveal_strlit("colorrgba");
    reveal_strlit("color");
    reveal_strlit("turret path");
    reveal_strlit("turretpath");
    reveal_strlit("unitloadoutarray");
    reveal_strlit("position");
    reveal_strlit("position#introduction|position2d");
    reveal_strlit("position#position2d");
    reveal_strlit("position2d");
    reveal_strlit("position#introduction|position3d");
    reveal_strlit("position#position3d");
    reveal_strlit("position3d");
    reveal_strlit("position#positionasl");
    reveal_strlit("positionasl");
    reveal_strlit("position#positionaslw");
    reveal_strlit("positionaslw");
    reveal_strlit("positionworld");
    reveal_strlit("position#positionatl");
    reveal_strlit("positionatl");
    reveal_strlit("position#positionagl");
    reveal_strlit("positionagl");
    reveal_strlit("position#positionagls");
    reveal_strlit("positionagls");
    reveal_strlit("position#positionrelative");
    reveal_strlit("positionrelative");
    reveal_strlit("vector");
    reveal_strlit("vector2d");
    reveal_strlit("vector3d");
    reveal_strlit("waypoint");
    reveal_strlit("while type");
    reveal_strlit("whiletype");
    reveal_strlit("with type");
    reveal_strlit("withtype");
    reveal_strlit("With Type");
    reveal_with_fuel(wiki_spelling, 10);
    assert(wiki_spelling(kind_text(Kind::WithType), true) =~= "withtype"@);
    assert("withtype"@[0] != "anything"@[0]);
    assert("withtype"@[0] != "for type"@[0]);
    assert("withtype"@[0] != "location"@[0]);
    assert("withtype"@[0] != "colorrgb"@[0]);
    assert("withtype"@[0] != "position"@[0]);
    assert("withtype"@[0] != "vector2d"@[0]);
    assert("withtype"@[0] != "vector3d"@[0]);
    assert("withtype"@[1] != "waypoint"@[1]);
}

/// The types named with spaces are also read from their name without spaces:
/// `Diary Record` from `diaryrecord`, `If Type` from `iftype`.
pub proof fn lemma_kind_names_read_back_squeezed(k: Kind)
    requires
        spelled_both_ways(k),
    ensures
        kind_of_name(wiki_spelling(kind_text(k), true)) == Some(k),
{
    match k {
        Kind::DiaryRecord => lemma_reads_squeezed_diary_record(),
        Kind::EdenEntity => lemma_reads_squeezed_eden_entity(),
        Kind::EdenID => lemma_reads_squeezed_eden_i_d(),
        Kind::ExceptionHandle => lemma_reads_squeezed_exception_handle(),
        Kind::ForType => lemma_reads_squeezed_for_type(),
        Kind::HashMapKey => lemma_reads_squeezed_hash_map_key(),
        Kind::IfType => lemma_reads_squeezed_if_type(),
        Kind::ScriptHandle => lemma_reads_squeezed_script_handle(),
        Kind::StructuredText => lemma_reads_squeezed_structured_text(),
        Kind::SwitchType => lemma_reads_squeezed_switch_type(),
        Kind::TeamMember => lemma_reads_squeezed_team_member(),
        Kind::TurretPath => lemma_reads_squeezed_turret_path(),
        Kind::ParticleArray => lemma_reads_squeezed_particle_array(),
        Kind::WhileType => lemma_reads_squeezed_while_type(),
        Kind::WithType => lemma_reads_squeezed_with_type(),
        _ => {},
    }
}

} // verus!
