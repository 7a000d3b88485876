//! The types that the wiki gives parameters and return values.
use vstd::prelude::*;

use crate::since::{Since, SinceView};
use crate::text::{chars_of, string_of};

verus! {

/// A named element of a fixed-size array.
#[derive(Debug, Hash, PartialEq, Eq)]
pub struct ArraySizedElement {
    pub name: String,
    pub typ: Value,
    pub default: Option<String>,
    pub desc: Option<String>,
    pub since: Option<Since>,
}

/// One value of a number enumeration.
#[derive(Debug, Hash, PartialEq, Eq)]
pub struct NumberEnumValue {
    pub value: i32,
    pub desc: Option<String>,
    pub since: Option<Since>,
}

/// One value of a string enumeration.
#[derive(Debug, Hash, PartialEq, Eq)]
pub struct StringEnumValue {
    pub value: String,
    pub desc: Option<String>,
    pub since: Option<Since>,
}

/// One of several types that a value may have.
#[derive(Debug, Hash, PartialEq, Eq)]
pub struct OneOfValue {
    pub typ: Value,
    pub desc: Option<String>,
    pub since: Option<Since>,
}

/// A type of the scripting language, as the wiki names it.
#[derive(Debug, Hash, PartialEq, Eq)]
pub enum Value {
    Anything,
    ArraySized(Vec<ArraySizedElement>),
    ArrayUnsized { value: Box<Self> },
    ArrayEmpty,
    ArrayDate,
    ArrayColor,
    ArrayColorRgb,
    ArrayColorRgba,
    ArrayEdenEntities,
    Boolean,
    Code,
    Config,
    Control,
    DiaryRecord,
    Display,
    EdenEntity,
    EdenID,
    ExceptionHandle,
    ForType,
    Group,
    HashMapUnknown,
    HashMapKnownKeys(Vec<String>),
    HashMapKey,
    IfType,
    Location,
    Namespace,
    Nothing,
    Number,
    NumberEnum(Vec<NumberEnumValue>),
    NumberRange(i32, i32),
    Object,
    ScriptHandle,
    Side,
    String,
    StringEnum(Vec<StringEnumValue>),
    StructuredText,
    SwitchType,
    Task,
    TeamMember,
    Path,
    TreeViewPath,
    TurretPath,
    UnitLoadoutArray,
    ParticleArray,
    Position,
    Position2d,
    Position3d,
    Position3dASL,
    Position3dASLW,
    Position3dATL,
    Position3dAGL,
    Position3dAGLS,
    Position3dRelative,
    Position3dWorld,
    Vector,
    Vector2d,
    Vector3d,
    Waypoint,
    WhileType,
    WithType,
    Unknown,
    OneOf(Vec<OneOfValue>),
}

/// The types that carry no further data.
#[derive(Clone, Copy, Debug, PartialEq, Eq)]
pub enum Kind {
    Anything,
    ArrayEmpty,
    ArrayDate,
    ArrayColor,
    ArrayColorRgb,
    ArrayColorRgba,
    ArrayEdenEntities,
    Boolean,
    Code,
    Config,
    Control,
    DiaryRecord,
    Display,
    EdenEntity,
    EdenID,
    ExceptionHandle,
    ForType,
    Group,
    HashMapUnknown,
    HashMapKey,
    IfType,
    Location,
    Namespace,
    Nothing,
    Number,
    Object,
    ScriptHandle,
    Side,
    String,
    StructuredText,
    SwitchType,
    Task,
    TeamMember,
    Path,
    TreeViewPath,
    TurretPath,
    UnitLoadoutArray,
    ParticleArray,
    Position,
    Position2d,
    Position3d,
    Position3dASL,
    Position3dASLW,
    Position3dATL,
    Position3dAGL,
    Position3dAGLS,
    Position3dRelative,
    Position3dWorld,
    Vector,
    Vector2d,
    Vector3d,
    Waypoint,
    WhileType,
    WithType,
    Unknown,
}

/// The contents of a `Value`.
pub enum ValueModel {
    Plain(Kind),
    ArraySized(Seq<ElementModel>),
    ArrayUnsized(Box<ValueModel>),
    HashMapKnownKeys(Seq<Seq<char>>),
    NumberEnum(Seq<NumberEnumModel>),
    NumberRange(i32, i32),
    StringEnum(Seq<StringEnumModel>),
    OneOf(Seq<OneOfModel>),
}

/// The contents of an `ArraySizedElement`.
pub struct ElementModel {
    pub name: Seq<char>,
    pub typ: ValueModel,
    pub default: Option<Seq<char>>,
    pub desc: Option<Seq<char>>,
    pub since: Option<SinceView>,
}

/// The contents of a `NumberEnumValue`.
pub struct NumberEnumModel {
    pub value: i32,
    pub desc: Option<Seq<char>>,
    pub since: Option<SinceView>,
}

/// The contents of a `StringEnumValue`.
pub struct StringEnumModel {
    pub value: Seq<char>,
    pub desc: Option<Seq<char>>,
    pub since: Option<SinceView>,
}

/// The contents of a `OneOfValue`.
pub struct OneOfModel {
    pub typ: ValueModel,
    pub desc: Option<Seq<char>>,
    pub since: Option<SinceView>,
}

/// The view of an optional text.
pub open spec fn opt_text(o: Option<String>) -> Option<Seq<char>> {
    match o {
        Some(t) => Some(t@),
        None => None,
    }
}

/// The view of an optional `Since`.
pub open spec fn opt_since(o: Option<Since>) -> Option<SinceView> {
    match o {
        Some(s) => Some(s@),
        None => None,
    }
}

pub open spec fn number_enum_model(e: NumberEnumValue) -> NumberEnumModel {
    NumberEnumModel { value: e.value, desc: opt_text(e.desc), since: opt_since(e.since) }
}

pub open spec fn string_enum_model(e: StringEnumValue) -> StringEnumModel {
    StringEnumModel { value: e.value@, desc: opt_text(e.desc), since: opt_since(e.since) }
}

/// The contents of a value.
pub open spec fn value_model(v: Value) -> ValueModel
    decreases v,
{
    match v {
        Value::Anything => ValueModel::Plain(Kind::Anything),
        Value::ArrayEmpty => ValueModel::Plain(Kind::ArrayEmpty),
        Value::ArrayDate => ValueModel::Plain(Kind::ArrayDate),
        Value::ArrayColor => ValueModel::Plain(Kind::ArrayColor),
        Value::ArrayColorRgb => ValueModel::Plain(Kind::ArrayColorRgb),
        Value::ArrayColorRgba => ValueModel::Plain(Kind::ArrayColorRgba),
        Value::ArrayEdenEntities => ValueModel::Plain(Kind::ArrayEdenEntities),
        Value::Boolean => ValueModel::Plain(Kind::Boolean),
        Value::Code => ValueModel::Plain(Kind::Code),
        Value::Config => ValueModel::Plain(Kind::Config),
        Value::Control => ValueModel::Plain(Kind::Control),
        Value::DiaryRecord => ValueModel::Plain(Kind::DiaryRecord),
        Value::Display => ValueModel::Plain(Kind::Display),
        Value::EdenEntity => ValueModel::Plain(Kind::EdenEntity),
        Value::EdenID => ValueModel::Plain(Kind::EdenID),
        Value::ExceptionHandle => ValueModel::Plain(Kind::ExceptionHandle),
        Value::ForType => ValueModel::Plain(Kind::ForType),
        Value::Group => ValueModel::Plain(Kind::Group),
        Value::HashMapUnknown => ValueModel::Plain(Kind::HashMapUnknown),
        Value::HashMapKey => ValueModel::Plain(Kind::HashMapKey),
        Value::IfType => ValueModel::Plain(Kind::IfType),
        Value::Location => ValueModel::Plain(Kind::Location),
        Value::Namespace => ValueModel::Plain(Kind::Namespace),
        Value::Nothing => ValueModel::Plain(Kind::Nothing),
        Value::Number => ValueModel::Plain(Kind::Number),
        Value::Object => ValueModel::Plain(Kind::Object),
        Value::ScriptHandle => ValueModel::Plain(Kind::ScriptHandle),
        Value::Side => ValueModel::Plain(Kind::Side),
        Value::String => ValueModel::Plain(Kind::String),
        Value::StructuredText => ValueModel::Plain(Kind::StructuredText),
        Value::SwitchType => ValueModel::Plain(Kind::SwitchType),
        Value::Task => ValueModel::Plain(Kind::Task),
        Value::TeamMember => ValueModel::Plain(Kind::TeamMember),
        Value::Path => ValueModel::Plain(Kind::Path),
        Value::TreeViewPath => ValueModel::Plain(Kind::TreeViewPath),
        Value::TurretPath => ValueModel::Plain(Kind::TurretPath),
        Value::UnitLoadoutArray => ValueModel::Plain(Kind::UnitLoadoutArray),
        Value::ParticleArray => ValueModel::Plain(Kind::ParticleArray),
        Value::Position => ValueModel::Plain(Kind::Position),
        Value::Position2d => ValueModel::Plain(Kind::Position2d),
        Value::Position3d => ValueModel::Plain(Kind::Position3d),
        Value::Position3dASL => ValueModel::Plain(Kind::Position3dASL),
        Value::Position3dASLW => ValueModel::Plain(Kind::Position3dASLW),
        Value::Position3dATL => ValueModel::Plain(Kind::Position3dATL),
        Value::Position3dAGL => ValueModel::Plain(Kind::Position3dAGL),
        Value::Position3dAGLS => ValueModel::Plain(Kind::Position3dAGLS),
        Value::Position3dRelative => ValueModel::Plain(Kind::Position3dRelative),
        Value::Position3dWorld => ValueModel::Plain(Kind::Position3dWorld),
        Value::Vector => ValueModel::Plain(Kind::Vector),
        Value::Vector2d => ValueModel::Plain(Kind::Vector2d),
        Value::Vector3d => ValueModel::Plain(Kind::Vector3d),
        Value::Waypoint => ValueModel::Plain(Kind::Waypoint),
        Value::WhileType => ValueModel::Plain(Kind::WhileType),
        Value::WithType => ValueModel::Plain(Kind::WithType),
        Value::Unknown => ValueModel::Plain(Kind::Unknown),
        Value::ArraySized(es) => ValueModel::ArraySized(
            Seq::new(
                es@.len(),
                |i: int|
                    if 0 <= i < es@.len() {
                        ElementModel { name: es@[i].name@, typ: value_model(es@[i].typ), default: opt_text(es@[i].default), desc: opt_text(es@[i].desc), since: opt_since(es@[i].since) }
                    } else {
                        ElementModel { name: Seq::empty(), typ: ValueModel::Plain(Kind::Unknown), default: None, desc: None, since: None }
                    },
            ),
        ),
        Value::ArrayUnsized { value } => ValueModel::ArrayUnsized(Box::new(value_model(*value))),
        Value::HashMapKnownKeys(ks) => ValueModel::HashMapKnownKeys(ks@.map_values(|k: String| k@)),
        Value::NumberEnum(es) => ValueModel::NumberEnum(es@.map_values(|e: NumberEnumValue| number_enum_model(e))),
        Value::NumberRange(a, b) => ValueModel::NumberRange(a, b),
        Value::StringEnum(es) => ValueModel::StringEnum(es@.map_values(|e: StringEnumValue| string_enum_model(e))),
        Value::OneOf(os) => ValueModel::OneOf(
            Seq::new(
                os@.len(),
                |i: int|
                    if 0 <= i < os@.len() {
                        OneOfModel { typ: value_model(os@[i].typ), desc: opt_text(os@[i].desc), since: opt_since(os@[i].since) }
                    } else {
                        OneOfModel { typ: ValueModel::Plain(Kind::Unknown), desc: None, since: None }
                    },
            ),
        ),
    }
}

impl View for Value {
    type V = ValueModel;

    open spec fn view(&self) -> ValueModel {
        value_model(*self)
    }
}

impl View for ArraySizedElement {
    type V = ElementModel;

    open spec fn view(&self) -> ElementModel {
        ElementModel {
            name: self.name@,
            typ: self.typ@,
            default: opt_text(self.default),
            desc: opt_text(self.desc),
            since: opt_since(self.since),
        }
    }
}

impl View for NumberEnumValue {
    type V = NumberEnumModel;

    open spec fn view(&self) -> NumberEnumModel {
        number_enum_model(*self)
    }
}

impl View for StringEnumValue {
    type V = StringEnumModel;

    open spec fn view(&self) -> StringEnumModel {
        string_enum_model(*self)
    }
}

impl View for OneOfValue {
    type V = OneOfModel;

    open spec fn view(&self) -> OneOfModel {
        OneOfModel { typ: self.typ@, desc: opt_text(self.desc), since: opt_since(self.since) }
    }
}

/// The contents of a sequence of array elements.
pub open spec fn elements_model(es: Seq<ArraySizedElement>) -> Seq<ElementModel> {
    es.map_values(|e: ArraySizedElement| e@)
}

/// The contents of a sequence of alternatives.
pub open spec fn one_of_model(os: Seq<OneOfValue>) -> Seq<OneOfModel> {
    os.map_values(|o: OneOfValue| o@)
}

impl Value {
    /// The value of a type that carries no data.
    pub fn from_kind(k: Kind) -> (r: Value)
        ensures
            r@ == ValueModel::Plain(k),
    {
        match k {
            Kind::Anything => Value::Anything,
            Kind::ArrayEmpty => Value::ArrayEmpty,
            Kind::ArrayDate => Value::ArrayDate,
            Kind::ArrayColor => Value::ArrayColor,
            Kind::ArrayColorRgb => Value::ArrayColorRgb,
            Kind::ArrayColorRgba => Value::ArrayColorRgba,
            Kind::ArrayEdenEntities => Value::ArrayEdenEntities,
            Kind::Boolean => Value::Boolean,
            Kind::Code => Value::Code,
            Kind::Config => Value::Config,
            Kind::Control => Value::Control,
            Kind::DiaryRecord => Value::DiaryRecord,
            Kind::Display => Value::Display,
            Kind::EdenEntity => Value::EdenEntity,
            Kind::EdenID => Value::EdenID,
            Kind::ExceptionHandle => Value::ExceptionHandle,
            Kind::ForType => Value::ForType,
            Kind::Group => Value::Group,
            Kind::HashMapUnknown => Value::HashMapUnknown,
            Kind::HashMapKey => Value::HashMapKey,
            Kind::IfType => Value::IfType,
            Kind::Location => Value::Location,
            Kind::Namespace => Value::Namespace,
            Kind::Nothing => Value::Nothing,
            Kind::Number => Value::Number,
            Kind::Object => Value::Object,
            Kind::ScriptHandle => Value::ScriptHandle,
            Kind::Side => Value::Side,
            Kind::String => Value::String,
            Kind::StructuredText => Value::StructuredText,
            Kind::SwitchType => Value::SwitchType,
            Kind::Task => Value::Task,
            Kind::TeamMember => Value::TeamMember,
            Kind::Path => Value::Path,
            Kind::TreeViewPath => Value::TreeViewPath,
            Kind::TurretPath => Value::TurretPath,
            Kind::UnitLoadoutArray => Value::UnitLoadoutArray,
            Kind::ParticleArray => Value::ParticleArray,
            Kind::Position => Value::Position,
            Kind::Position2d => Value::Position2d,
            Kind::Position3d => Value::Position3d,
            Kind::Position3dASL => Value::Position3dASL,
            Kind::Position3dASLW => Value::Position3dASLW,
            Kind::Position3dATL => Value::Position3dATL,
            Kind::Position3dAGL => Value::Position3dAGL,
            Kind::Position3dAGLS => Value::Position3dAGLS,
            Kind::Position3dRelative => Value::Position3dRelative,
            Kind::Position3dWorld => Value::Position3dWorld,
            Kind::Vector => Value::Vector,
            Kind::Vector2d => Value::Vector2d,
            Kind::Vector3d => Value::Vector3d,
            Kind::Waypoint => Value::Waypoint,
            Kind::WhileType => Value::WhileType,
            Kind::WithType => Value::WithType,
            Kind::Unknown => Value::Unknown,
        }
    }

    pub fn is_unknown(&self) -> (r: bool)
        ensures
            r == (self@ == ValueModel::Plain(Kind::Unknown)),
    {
        matches!(self, Self::Unknown)
    }

    /// An array of elements.
    pub fn array_sized(es: Vec<ArraySizedElement>) -> (r: Value)
        ensures
            r@ == ValueModel::ArraySized(elements_model(es@)),
    {
        let r = Value::ArraySized(es);
        assert(value_model(r) == ValueModel::ArraySized(elements_model(es@))) by {
            assert(match value_model(r) { ValueModel::ArraySized(m) => m =~= elements_model(es@), _ => false });
        }
        r
    }

    /// Alternatives between types.
    pub fn one_of(os: Vec<OneOfValue>) -> (r: Value)
        ensures
            r@ == ValueModel::OneOf(one_of_model(os@)),
    {
        let r = Value::OneOf(os);
        assert(value_model(r) == ValueModel::OneOf(one_of_model(os@))) by {
            assert(match value_model(r) { ValueModel::OneOf(m) => m =~= one_of_model(os@), _ => false });
        }
        r
    }

    /// An array of any length whose items have the given type.
    pub fn array_unsized(v: Value) -> (r: Value)
        ensures
            r@ == ValueModel::ArrayUnsized(Box::new(v@)),
    {
        Value::ArrayUnsized { value: Box::new(v) }
    }
}


fn copy_text(s: &String) -> (r: String)
    ensures
        r@ == s@,
{
    string_of(&chars_of(s.as_str()))
}

fn copy_opt_text(s: &Option<String>) -> (r: Option<String>)
    ensures
        opt_text(r) == opt_text(*s),
{
    match s {
        Some(t) => Some(copy_text(t)),
        None => None,
    }
}

fn copy_opt_since(s: &Option<Since>) -> (r: Option<Since>)
    ensures
        opt_since(r) == opt_since(*s),
{
    match s {
        Some(t) => Some(*t),
        None => None,
    }
}

/// A copy of a list of texts.
pub fn copy_texts(v: &Vec<String>) -> (r: Vec<String>)
    ensures
        r@.map_values(|k: String| k@) == v@.map_values(|k: String| k@),
{
    let mut out: Vec<String> = Vec::new();
    let mut i: usize = 0;
    while i < v.len()
        invariant
            i <= v@.len(),
            out@.len() == i,
            forall|k: int| 0 <= k < i ==> (#[trigger] out@[k])@ == v@[k]@,
        decreases v@.len() - i,
    {
        out.push(copy_text(&v[i]));
        i += 1;
    }
    assert(out@.map_values(|k: String| k@) =~= v@.map_values(|k: String| k@));
    out
}

fn copy_number_enum(v: &Vec<NumberEnumValue>) -> (r: Vec<NumberEnumValue>)
    ensures
        r@.map_values(|e: NumberEnumValue| number_enum_model(e)) == v@.map_values(|e: NumberEnumValue| number_enum_model(e)),
{
    let mut out: Vec<NumberEnumValue> = Vec::new();
    let mut i: usize = 0;
    while i < v.len()
        invariant
            i <= v@.len(),
            out@.len() == i,
            forall|k: int| 0 <= k < i ==> number_enum_model(#[trigger] out@[k]) == number_enum_model(v@[k]),
        decreases v@.len() - i,
    {
        let e = &v[i];
        out.push(NumberEnumValue { value: e.value, desc: copy_opt_text(&e.desc), since: copy_opt_since(&e.since) });
        i += 1;
    }
    assert(out@.map_values(|e: NumberEnumValue| number_enum_model(e)) =~= v@.map_values(|e: NumberEnumValue| number_enum_model(e)));
    out
}

fn copy_string_enum(v: &Vec<StringEnumValue>) -> (r: Vec<StringEnumValue>)
    ensures
        r@.map_values(|e: StringEnumValue| string_enum_model(e)) == v@.map_values(|e: StringEnumValue| string_enum_model(e)),
{
    let mut out: Vec<StringEnumValue> = Vec::new();
    let mut i: usize = 0;
    while i < v.len()
        invariant
            i <= v@.len(),
            out@.len() == i,
            forall|k: int| 0 <= k < i ==> string_enum_model(#[trigger] out@[k]) == string_enum_model(v@[k]),
        decreases v@.len() - i,
    {
        let e = &v[i];
        out.push(StringEnumValue { value: copy_text(&e.value), desc: copy_opt_text(&e.desc), since: copy_opt_since(&e.since) });
        i += 1;
    }
    assert(out@.map_values(|e: StringEnumValue| string_enum_model(e)) =~= v@.map_values(|e: StringEnumValue| string_enum_model(e)));
    out
}

fn copy_elements(v: &Vec<ArraySizedElement>) -> (r: Vec<ArraySizedElement>)
    ensures
        elements_model(r@) == elements_model(v@),
    decreases v, 0int,
{
    let mut out: Vec<ArraySizedElement> = Vec::new();
    let mut i: usize = 0;
    while i < v.len()
        invariant
            i <= v@.len(),
            out@.len() == i,
            forall|k: int| 0 <= k < i ==> (#[trigger] out@[k])@ == v@[k]@,
        decreases v@.len() - i,
    {
        let e = &v[i];
        assert(decreases_to!(v => e.typ)) by {
            assert(decreases_to!(v => v@));
            assert(decreases_to!(v@ => v@[i as int]));
        }
        out.push(ArraySizedElement {
            name: copy_text(&e.name),
            typ: e.typ.copy(),
            default: copy_opt_text(&e.default),
            desc: copy_opt_text(&e.desc),
            since: copy_opt_since(&e.since),
        });
        i += 1;
    }
    assert(elements_model(out@) =~= elements_model(v@));
    out
}

fn copy_one_of(v: &Vec<OneOfValue>) -> (r: Vec<OneOfValue>)
    ensures
        one_of_model(r@) == one_of_model(v@),
    decreases v, 0int,
{
    let mut out: Vec<OneOfValue> = Vec::new();
    let mut i: usize = 0;
    while i < v.len()
        invariant
            i <= v@.len(),
            out@.len() == i,
            forall|k: int| 0 <= k < i ==> (#[trigger] out@[k])@ == v@[k]@,
        decreases v@.len() - i,
    {
        let e = &v[i];
        assert(decreases_to!(v => e.typ)) by {
            assert(decreases_to!(v => v@));
            assert(decreases_to!(v@ => v@[i as int]));
        }
        out.push(OneOfValue { typ: e.typ.copy(), desc: copy_opt_text(&e.desc), since: copy_opt_since(&e.since) });
        i += 1;
    }
    assert(one_of_model(out@) =~= one_of_model(v@));
    out
}

impl ArraySizedElement {
    /// A copy of the element.
    pub fn copy(&self) -> (r: ArraySizedElement)
        ensures
            r@ == self@,
    {
        ArraySizedElement {
            name: copy_text(&self.name),
            typ: self.typ.copy(),
            default: copy_opt_text(&self.default),
            desc: copy_opt_text(&self.desc),
            since: copy_opt_since(&self.since),
        }
    }
}

impl Value {
    /// A copy of the value.
    pub fn copy(&self) -> (r: Value)
        ensures
            r@ == self@,
        decreases self,
    {
        match self {
            Value::ArraySized(es) => {
                assert(match self@ { ValueModel::ArraySized(m) => m =~= elements_model(es@), _ => false });
                Value::array_sized(copy_elements(es))
            },
            Value::ArrayUnsized { value } => Value::array_unsized(value.copy()),
            Value::HashMapKnownKeys(ks) => {
                let r = Value::HashMapKnownKeys(copy_texts(ks));
                assert(r@ == self@);
                r
            },
            Value::NumberEnum(es) => {
                let r = Value::NumberEnum(copy_number_enum(es));
                assert(r@ == self@);
                r
            },
            Value::NumberRange(a, b) => Value::NumberRange(*a, *b),
            Value::StringEnum(es) => {
                let r = Value::StringEnum(copy_string_enum(es));
                assert(r@ == self@);
                r
            },
            Value::OneOf(os) => {
                assert(match self@ { ValueModel::OneOf(m) => m =~= one_of_model(os@), _ => false });
                Value::one_of(copy_one_of(os))
            },
            Value::Anything => Value::Anything,
            Value::ArrayEmpty => Value::ArrayEmpty,
            Value::ArrayDate => Value::ArrayDate,
            Value::ArrayColor => Value::ArrayColor,
            Value::ArrayColorRgb => Value::ArrayColorRgb,
            Value::ArrayColorRgba => Value::ArrayColorRgba,
            Value::ArrayEdenEntities => Value::ArrayEdenEntities,
            Value::Boolean => Value::Boolean,
            Value::Code => Value::Code,
            Value::Config => Value::Config,
            Value::Control => Value::Control,
            Value::DiaryRecord => Value::DiaryRecord,
            Value::Display => Value::Display,
            Value::EdenEntity => Value::EdenEntity,
            Value::EdenID => Value::EdenID,
            Value::ExceptionHandle => Value::ExceptionHandle,
            Value::ForType => Value::ForType,
            Value::Group => Value::Group,
            Value::HashMapUnknown => Value::HashMapUnknown,
            Value::HashMapKey => Value::HashMapKey,
            Value::IfType => Value::IfType,
            Value::Location => Value::Location,
            Value::Namespace => Value::Namespace,
            Value::Nothing => Value::Nothing,
            Value::Number => Value::Number,
            Value::Object => Value::Object,
            Value::ScriptHandle => Value::ScriptHandle,
            Value::Side => Value::Side,
            Value::String => Value::String,
            Value::StructuredText => Value::StructuredText,
            Value::SwitchType => Value::SwitchType,
            Value::Task => Value::Task,
            Value::TeamMember => Value::TeamMember,
            Value::Path => Value::Path,
            Value::TreeViewPath => Value::TreeViewPath,
            Value::TurretPath => Value::TurretPath,
            Value::UnitLoadoutArray => Value::UnitLoadoutArray,
            Value::ParticleArray => Value::ParticleArray,
            Value::Position => Value::Position,
            Value::Position2d => Value::Position2d,
            Value::Position3d => Value::Position3d,
            Value::Position3dASL => Value::Position3dASL,
            Value::Position3dASLW => Value::Position3dASLW,
            Value::Position3dATL => Value::Position3dATL,
            Value::Position3dAGL => Value::Position3dAGL,
            Value::Position3dAGLS => Value::Position3dAGLS,
            Value::Position3dRelative => Value::Position3dRelative,
            Value::Position3dWorld => Value::Position3dWorld,
            Value::Vector => Value::Vector,
            Value::Vector2d => Value::Vector2d,
            Value::Vector3d => Value::Vector3d,
            Value::Waypoint => Value::Waypoint,
            Value::WhileType => Value::WhileType,
            Value::WithType => Value::WithType,
            Value::Unknown => Value::Unknown,
        }
    }
}

} // verus!
