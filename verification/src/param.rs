//! The parameters of a command: items taken from a pool of documented
//! parameters, arranged as the command's call arranges its arguments.
use vstd::prelude::*;

use crate::call::{arg_names, args_model, list_names, Arg, ArgModel, Call, CallModel};
use crate::since::{Since, SinceView};
use crate::text::{chars_of, concat, eq, message, string_of};
use crate::value::{
    elements_model, opt_since, opt_text, ArraySizedElement, ElementModel, Kind, Value, ValueModel,
};

verus! {

broadcast use vstd::slice::group_slice_axioms;

/// A documented parameter: its name, description, type, whether it may be
/// left out and with which default, and since when it exists.
#[derive(Debug, PartialEq, Eq)]
pub struct ParamItem {
    pub name: String,
    pub desc: Option<String>,
    pub typ: Value,
    pub optional: bool,
    pub default: Option<String>,
    pub since: Option<Since>,
}

/// The contents of a `ParamItem`.
pub struct ParamItemModel {
    pub name: Seq<char>,
    pub desc: Option<Seq<char>>,
    pub typ: ValueModel,
    pub optional: bool,
    pub default: Option<Seq<char>>,
    pub since: Option<SinceView>,
}

impl View for ParamItem {
    type V = ParamItemModel;

    open spec fn view(&self) -> ParamItemModel {
        ParamItemModel {
            name: self.name@,
            desc: opt_text(self.desc),
            typ: self.typ@,
            optional: self.optional,
            default: opt_text(self.default),
            since: opt_since(self.since),
        }
    }
}

/// A parameter: one item, a fixed array of parameters, or parameters that repeat.
#[derive(Debug, PartialEq, Eq)]
pub enum Param {
    Item(ParamItem),
    Array(Vec<Param>),
    /// Parameters repeated any number of times: `[item1, item2, ...]` repeats
    /// one item, `[name1, value1, name2, value2, ...]` repeats several.
    Infinite(Vec<Param>),
}

/// The contents of a `Param`.
pub enum ParamModel {
    Item(ParamItemModel),
    Array(Seq<ParamModel>),
    Infinite(Seq<ParamModel>),
}

/// The contents of a parameter.
pub open spec fn param_model(p: Param) -> ParamModel
    decreases p,
{
    match p {
        Param::Item(it) => ParamModel::Item(it@),
        Param::Array(v) => ParamModel::Array(
            Seq::new(
                v@.len(),
                |i: int|
                    if 0 <= i < v@.len() {
                        param_model(v@[i])
                    } else {
                        ParamModel::Array(Seq::empty())
                    },
            ),
        ),
        Param::Infinite(v) => ParamModel::Infinite(
            Seq::new(
                v@.len(),
                |i: int|
                    if 0 <= i < v@.len() {
                        param_model(v@[i])
                    } else {
                        ParamModel::Array(Seq::empty())
                    },
            ),
        ),
    }
}

impl View for Param {
    type V = ParamModel;

    open spec fn view(&self) -> ParamModel {
        param_model(*self)
    }
}

/// The contents of a list of parameters.
pub open spec fn params_model(v: Seq<Param>) -> Seq<ParamModel> {
    v.map_values(|p: Param| p@)
}

/// The contents of a pool of parameter items.
pub open spec fn pool_model(v: Seq<ParamItem>) -> Seq<ParamItemModel> {
    v.map_values(|p: ParamItem| p@)
}

// ----- building parameters from a call -----

/// The index of the first item of the pool with the given name.
pub open spec fn first_named(pool: Seq<ParamItemModel>, name: Seq<char>) -> Option<int>
    decreases pool.len(),
{
    if pool.len() == 0 {
        None
    } else {
        match first_named(pool.drop_last(), name) {
            Some(k) => Some(k),
            None => if pool.last().name == name {
                Some(pool.len() - 1)
            } else {
                None
            },
        }
    }
}

/// The message for a name that the pool lacks.
pub open spec fn not_in_pool(name: Seq<char>) -> Seq<char> {
    "Param `"@ + name + "` not found in pool"@
}

/// The parameter that an argument stands for, each item taken from the pool
/// by its name; the first name that the pool lacks is reported.
pub open spec fn param_of_arg(a: ArgModel, pool: Seq<ParamItemModel>) -> Result<ParamModel, Seq<char>>
    decreases a,
{
    match a {
        ArgModel::Item(name) => match first_named(pool, name) {
            Some(k) => Ok(ParamModel::Item(pool[k])),
            None => Err(not_in_pool(name)),
        },
        ArgModel::Array(v) => match params_of_args(v, pool) {
            Ok(ps) => Ok(ParamModel::Array(ps)),
            Err(e) => Err(e),
        },
        ArgModel::InfiniteItem(b) => match param_of_arg(*b, pool) {
            Ok(p) => Ok(ParamModel::Infinite(seq![p])),
            Err(e) => Err(e),
        },
        ArgModel::InfiniteFlat(v) => match params_of_args(v, pool) {
            Ok(ps) => Ok(ParamModel::Infinite(ps)),
            Err(e) => Err(e),
        },
    }
}

/// The parameters of a list of arguments, in order, or the first failure.
pub open spec fn params_of_args(v: Seq<ArgModel>, pool: Seq<ParamItemModel>) -> Result<Seq<ParamModel>, Seq<char>>
    decreases v,
{
    if v.len() == 0 {
        Ok(Seq::empty())
    } else {
        match params_of_args(v.subrange(0, v.len() - 1), pool) {
            Err(e) => Err(e),
            Ok(ps) => match param_of_arg(v[v.len() - 1], pool) {
                Ok(p) => Ok(ps.push(p)),
                Err(e) => Err(e),
            },
        }
    }
}

/// The parameter on one side of a call.
pub open spec fn param_of_call(c: CallModel, is_left: bool, pool: Seq<ParamItemModel>) -> Result<ParamModel, Seq<char>> {
    match c {
        CallModel::Nular => Err("Nular calls have no parameters"@),
        CallModel::Unary(a) => if is_left {
            Err("Unary call has no left parameter"@)
        } else {
            param_of_arg(a, pool)
        },
        CallModel::Binary(l, r) => param_of_arg(if is_left { l } else { r }, pool),
    }
}

proof fn lemma_first_named(pool: Seq<ParamItemModel>, name: Seq<char>, i: int)
    requires
        0 <= i <= pool.len(),
        forall|k: int| 0 <= k < i ==> (#[trigger] pool[k]).name != name,
    ensures
        first_named(pool.take(i), name) is None,
        i < pool.len() && pool[i].name == name ==> first_named(pool.take(i + 1), name) == Some(i),
    decreases i,
{
    if i > 0 {
        assert(pool.take(i).drop_last() =~= pool.take(i - 1));
        lemma_first_named(pool, name, i - 1);
    }
    if i < pool.len() {
        assert(pool.take(i + 1).drop_last() =~= pool.take(i));
    }
}

impl ParamItem {
    /// A parameter item from its parts.
    pub fn new(
        name: String,
        desc: Option<String>,
        typ: Value,
        optional: bool,
        default: Option<String>,
        since: Option<Since>,
    ) -> (r: Self)
        ensures
            r@ == (ParamItemModel {
                name: name@,
                desc: opt_text(desc),
                typ: typ@,
                optional,
                default: opt_text(default),
                since: opt_since(since),
            }),
    {
        ParamItem { name, desc, typ, optional, default, since }
    }

    /// A copy of the item.
    pub fn copy(&self) -> (r: Self)
        ensures
            r@ == self@,
    {
        ParamItem {
            name: string_of(&chars_of(self.name.as_str())),
            desc: match &self.desc {
                Some(d) => Some(string_of(&chars_of(d.as_str()))),
                None => None,
            },
            typ: self.typ.copy(),
            optional: self.optional,
            default: match &self.default {
                Some(d) => Some(string_of(&chars_of(d.as_str()))),
                None => None,
            },
            since: match &self.since {
                Some(s) => Some(*s),
                None => None,
            },
        }
    }

    pub fn name(&self) -> (r: &str)
        ensures
            r@ == self.name@,
    {
        self.name.as_str()
    }

    pub fn description(&self) -> (r: Option<&str>)
        ensures
            match r {
                Some(d) => self.desc matches Some(t) && d@ == t@,
                None => self.desc is None,
            },
    {
        match &self.desc {
            Some(d) => Some(d.as_str()),
            None => None,
        }
    }

    pub fn typ(&self) -> (r: &Value)
        ensures
            r == &self.typ,
    {
        &self.typ
    }

    pub fn optional(&self) -> (r: bool)
        ensures
            r == self.optional,
    {
        self.optional
    }

    pub fn default(&self) -> (r: Option<&str>)
        ensures
            match r {
                Some(d) => self.default matches Some(t) && d@ == t@,
                None => self.default is None,
            },
    {
        match &self.default {
            Some(d) => Some(d.as_str()),
            None => None,
        }
    }

    pub fn since(&self) -> (r: Option<&Since>)
        ensures
            match r {
                Some(s) => self.since == Some(*s),
                None => self.since is None,
            },
    {
        match &self.since {
            Some(s) => Some(s),
            None => None,
        }
    }

    /// The item's `Since`, made empty first where it had none.
    pub fn since_mut(&mut self) -> (r: &mut Since)
        ensures
            old(self).since matches Some(s) ==> *r == s,
            old(self).since is None ==> r@ == SinceView::none(),
            final(self).since == Some(*final(r)),
            final(self).name == old(self).name,
            final(self).desc == old(self).desc,
            final(self).typ == old(self).typ,
            final(self).optional == old(self).optional,
            final(self).default == old(self).default,
    {
        self.since.get_or_insert(Since::empty())
    }

    pub fn set_name(&mut self, name: String)
        ensures
            final(self).name == name,
            final(self).desc == old(self).desc,
            final(self).typ == old(self).typ,
            final(self).optional == old(self).optional,
            final(self).default == old(self).default,
            final(self).since == old(self).since,
    {
        self.name = name;
    }

    pub fn set_description(&mut self, desc: Option<String>)
        ensures
            final(self).desc == desc,
            final(self).name == old(self).name,
            final(self).typ == old(self).typ,
            final(self).optional == old(self).optional,
            final(self).default == old(self).default,
            final(self).since == old(self).since,
    {
        self.desc = desc;
    }

    pub fn set_typ(&mut self, typ: Value)
        ensures
            final(self).typ == typ,
            final(self).name == old(self).name,
            final(self).desc == old(self).desc,
            final(self).optional == old(self).optional,
            final(self).default == old(self).default,
            final(self).since == old(self).since,
    {
        self.typ = typ;
    }

    pub fn set_default(&mut self, default: Option<String>)
        ensures
            final(self).default == default,
            final(self).name == old(self).name,
            final(self).desc == old(self).desc,
            final(self).typ == old(self).typ,
            final(self).optional == old(self).optional,
            final(self).since == old(self).since,
    {
        self.default = default;
    }

    pub fn set_since(&mut self, since: Option<Since>)
        ensures
            final(self).since == since,
            final(self).name == old(self).name,
            final(self).desc == old(self).desc,
            final(self).typ == old(self).typ,
            final(self).optional == old(self).optional,
            final(self).default == old(self).default,
    {
        self.since = since;
    }
}

/// The item of the pool with the given name, copied, or the message that it is missing.
fn take_from_pool(name: &String, pool: &[ParamItem]) -> (r: Result<ParamItem, String>)
    ensures
        match r {
            Ok(it) => first_named(pool_model(pool@), name@) matches Some(k) && it@ == pool_model(pool@)[k],
            Err(e) => first_named(pool_model(pool@), name@) is None && e@ == not_in_pool(name@),
        },
{
    let ghost pm = pool_model(pool@);
    let n = chars_of(name.as_str());
    let mut i: usize = 0;
    while i < pool.len()
        invariant
            pm == pool_model(pool@),
            n@ == name@,
            i <= pool@.len(),
            forall|k: int| 0 <= k < i ==> (#[trigger] pm[k]).name != name@,
        decreases pool@.len() - i,
    {
        let candidate = chars_of(pool[i].name.as_str());
        if eq(&candidate, &n) {
            proof {
                lemma_first_named(pm, name@, i as int);
                assert(pm.take(i + 1) =~= pm.take(i + 1));
                lemma_first_prefix(pm, name@, i + 1);
            }
            return Ok(pool[i].copy());
        }
        i += 1;
    }
    proof {
        lemma_first_named(pm, name@, i as int);
        assert(pm.take(i as int) =~= pm);
    }
    let tail = chars_of("` not found in pool");
    let text = concat(&n, &tail);
    Err(message("Param `", &text))
}

/// A prefix in which a name is found finds it where the whole pool does.
proof fn lemma_first_prefix(pool: Seq<ParamItemModel>, name: Seq<char>, i: int)
    requires
        0 <= i <= pool.len(),
        first_named(pool.take(i), name) is Some,
    ensures
        first_named(pool, name) == first_named(pool.take(i), name),
    decreases pool.len() - i,
{
    if i < pool.len() {
        assert(pool.take(i + 1).drop_last() =~= pool.take(i));
        lemma_first_prefix(pool, name, i + 1);
    } else {
        assert(pool.take(i) =~= pool);
    }
}

impl Param {
    /// The parameter on the left (`is_left`) or right side of a call.
    pub fn from_pool_and_call(call: &Call, is_left: bool, pool: &[ParamItem]) -> (r: Result<Param, String>)
        ensures
            match r {
                Ok(p) => param_of_call(call@, is_left, pool_model(pool@)) == Ok::<ParamModel, Seq<char>>(p@),
                Err(e) => param_of_call(call@, is_left, pool_model(pool@)) == Err::<ParamModel, Seq<char>>(e@),
            },
    {
        match call {
            Call::Nular => Err(string_of(&chars_of("Nular calls have no parameters"))),
            Call::Unary(right) => {
                if is_left {
                    return Err(string_of(&chars_of("Unary call has no left parameter")));
                }
                Self::build(right, pool)
            },
            Call::Binary(left, right) => {
                if is_left {
                    Self::build(left, pool)
                } else {
                    Self::build(right, pool)
                }
            },
        }
    }

    /// The parameter that an argument stands for, each item taken from the pool
    /// by name: the first item of each name, so that its items carry, in order,
    /// the argument's names. Every name of the argument must have an item in
    /// the pool (`lemma_built_iff_named` says when).
    pub fn build_from_arg(arg: &Arg, pool: &[ParamItem]) -> (r: Result<Param, String>)
        requires
            all_in_pool(arg_names(arg@), pool_model(pool@)),
        ensures
            match r {
                Ok(p) => param_of_arg(arg@, pool_model(pool@)) == Ok::<ParamModel, Seq<char>>(p@)
                    && param_names(p@) == arg_names(arg@),
                Err(_) => false,
            },
    {
        proof {
            lemma_built_iff_named(arg@, pool_model(pool@));
            lemma_built_param_names(arg@, pool_model(pool@));
        }
        Self::build(arg, pool)
    }

    /// The parameter that an argument stands for; a name that no item of the
    /// pool has is reported as an error that names it.
    pub(crate) fn build(arg: &Arg, pool: &[ParamItem]) -> (r: Result<Param, String>)
        ensures
            match r {
                Ok(p) => param_of_arg(arg@, pool_model(pool@)) == Ok::<ParamModel, Seq<char>>(p@),
                Err(e) => param_of_arg(arg@, pool_model(pool@)) == Err::<ParamModel, Seq<char>>(e@),
            },
        decreases arg,
    {
        match arg {
            Arg::Item(name) => match take_from_pool(name, pool) {
                Ok(it) => Ok(Param::Item(it)),
                Err(e) => Err(e),
            },
            Arg::Array(list) => {
                assert(match arg@ { ArgModel::Array(m) => m =~= args_model(list@), _ => false });
                match Self::build_list(list, pool) {
                    Ok(ps) => {
                        let r = Param::Array(ps);
                        assert(match r@ { ParamModel::Array(m) => m =~= params_model(ps@), _ => false });
                        Ok(r)
                    },
                    Err(e) => Err(e),
                }
            },
            Arg::InfiniteItem(item) => match Self::build(item, pool) {
                Ok(p) => {
                    let ghost pm = p@;
                    let mut v: Vec<Param> = Vec::new();
                    v.push(p);
                    let r = Param::Infinite(v);
                    assert(match r@ { ParamModel::Infinite(m) => m =~= seq![pm], _ => false });
                    Ok(r)
                },
                Err(e) => Err(e),
            },
            Arg::InfiniteFlat(list) => {
                assert(match arg@ { ArgModel::InfiniteFlat(m) => m =~= args_model(list@), _ => false });
                match Self::build_list(list, pool) {
                    Ok(ps) => {
                        let r = Param::Infinite(ps);
                        assert(match r@ { ParamModel::Infinite(m) => m =~= params_model(ps@), _ => false });
                        Ok(r)
                    },
                    Err(e) => Err(e),
                }
            },
        }
    }

    fn build_list(list: &Vec<Arg>, pool: &[ParamItem]) -> (r: Result<Vec<Param>, String>)
        ensures
            match r {
                Ok(ps) => params_of_args(args_model(list@), pool_model(pool@)) == Ok::<Seq<ParamModel>, Seq<char>>(params_model(ps@)),
                Err(e) => params_of_args(args_model(list@), pool_model(pool@)) == Err::<Seq<ParamModel>, Seq<char>>(e@),
            },
        decreases list, 0int,
    {
        let ghost am = args_model(list@);
        let ghost pm = pool_model(pool@);
        let mut out: Vec<Param> = Vec::new();
        let mut i: usize = 0;
        assert(am.subrange(0, 0) =~= Seq::<ArgModel>::empty());
        assert(params_model(out@) =~= Seq::<ParamModel>::empty());
        while i < list.len()
            invariant
                am == args_model(list@),
                pm == pool_model(pool@),
                i <= list@.len(),
                out@.len() == i,
                params_of_args(am.subrange(0, i as int), pm) == Ok::<Seq<ParamModel>, Seq<char>>(params_model(out@)),
            decreases list@.len() - i,
        {
            let ghost before = out@;
            let ghost t = am.subrange(0, i + 1);
            assert(t.subrange(0, t.len() - 1) =~= am.subrange(0, i as int));
            assert(t[t.len() - 1] == list@[i as int]@);
            match Self::build(&list[i], pool) {
                Ok(p) => {
                    out.push(p);
                    assert(params_model(out@) =~= params_model(before).push(param_model(out@[i as int])));
                },
                Err(e) => {
                    proof {
                        lemma_params_error(am, pm, i as int + 1);
                    }
                    return Err(e);
                },
            }
            i += 1;
        }
        assert(am.subrange(0, list@.len() as int) =~= am);
        Ok(out)
    }
}

/// An error in a prefix is the error of the whole list.
proof fn lemma_params_error(v: Seq<ArgModel>, pool: Seq<ParamItemModel>, i: int)
    requires
        0 <= i <= v.len(),
        params_of_args(v.subrange(0, i), pool) is Err,
    ensures
        params_of_args(v, pool) == params_of_args(v.subrange(0, i), pool),
    decreases v.len() - i,
{
    if i < v.len() {
        let t = v.subrange(0, i + 1);
        assert(t.subrange(0, t.len() - 1) =~= v.subrange(0, i));
        lemma_params_error(v, pool, i + 1);
    } else {
        assert(v.subrange(0, i) =~= v);
    }
}


// ----- the type of a parameter -----

/// The element of an array type that a parameter gives: its name, type,
/// default, description (where `with_desc`) and since, for an item; only its
/// type otherwise.
pub open spec fn param_element(p: ParamModel, with_desc: bool) -> ElementModel
    decreases p, 1int,
{
    match p {
        ParamModel::Item(it) => ElementModel {
            name: it.name,
            typ: param_value(p),
            default: it.default,
            desc: if with_desc { it.desc } else { None },
            since: it.since,
        },
        _ => ElementModel {
            name: Seq::empty(),
            typ: param_value(p),
            default: None,
            desc: None,
            since: None,
        },
    }
}

/// The type of the values that a parameter takes: an item's own type; an
/// array of the parameters' types; an array of any length of the repeated
/// parameter, or of an array of the repeated parameters.
pub open spec fn param_value(p: ParamModel) -> ValueModel
    decreases p, 0int,
{
    match p {
        ParamModel::Item(it) => it.typ,
        ParamModel::Array(items) => ValueModel::ArraySized(
            Seq::new(
                items.len(),
                |i: int|
                    if 0 <= i < items.len() {
                        param_element(items[i], true)
                    } else {
                        ElementModel { name: Seq::empty(), typ: ValueModel::Plain(Kind::Unknown), default: None, desc: None, since: None }
                    },
            ),
        ),
        ParamModel::Infinite(items) => if items.len() == 1 {
            ValueModel::ArrayUnsized(Box::new(param_value(items[0])))
        } else {
            ValueModel::ArrayUnsized(
                Box::new(
                    ValueModel::ArraySized(
                        Seq::new(
                            items.len(),
                            |i: int|
                                if 0 <= i < items.len() {
                                    param_element(items[i], false)
                                } else {
                                    ElementModel { name: Seq::empty(), typ: ValueModel::Plain(Kind::Unknown), default: None, desc: None, since: None }
                                },
                        ),
                    ),
                ),
            )
        },
    }
}

impl Param {
    /// The type of the values that the parameter takes.
    pub fn as_value(&self) -> (r: Value)
        ensures
            r@ == param_value(self@),
        decreases self,
    {
        match self {
            Param::Item(item) => {
                assert(self@ == ParamModel::Item(item@));
                assert(param_value(self@) == item.typ@);
                let r = item.typ.copy();
                assert(r@ == param_value(self@));
                r
            },
            Param::Array(items) => {
                let es = elements_of(items, true);
                let r = Value::array_sized(es);
                assert(match self@ { ParamModel::Array(m) => m =~= params_model(items@), _ => false });
                assert(match r@ { ValueModel::ArraySized(m) => m =~= param_value(self@)->ArraySized_0, _ => false });
                assert(r@ == param_value(self@));
                r
            },
            Param::Infinite(items) => {
                assert(match self@ { ParamModel::Infinite(m) => m =~= params_model(items@), _ => false });
                if items.len() == 1 {
                    let r = Value::array_unsized(items[0].as_value());
                    assert(r@ == param_value(self@));
                    r
                } else {
                    let es = elements_of(items, false);
                    let inner = Value::array_sized(es);
                    assert(match inner@ { ValueModel::ArraySized(m) => m =~= params_model(items@).map_values(|q: ParamModel| param_element(q, false)), _ => false });
                    let r = Value::array_unsized(inner);
                    assert(match param_value(self@) {
                        ValueModel::ArrayUnsized(b) => match *b {
                            ValueModel::ArraySized(m) => m =~= params_model(items@).map_values(|q: ParamModel| param_element(q, false)),
                            _ => false,
                        },
                        _ => false,
                    });
                    assert(r@ == param_value(self@));
                    r
                }
            },
        }
    }
}

/// The elements that a list of parameters gives.
fn elements_of(items: &Vec<Param>, with_desc: bool) -> (r: Vec<ArraySizedElement>)
    ensures
        elements_model(r@) == params_model(items@).map_values(|q: ParamModel| param_element(q, with_desc)),
    decreases items, 0int,
{
    let mut out: Vec<ArraySizedElement> = Vec::new();
    let mut i: usize = 0;
    while i < items.len()
        invariant
            i <= items@.len(),
            out@.len() == i,
            forall|k: int| 0 <= k < i ==> (#[trigger] out@[k])@ == param_element(items@[k]@, with_desc),
        decreases items@.len() - i,
    {
        let item = &items[i];
        let typ = item.as_value();
        let e = match item {
            Param::Item(it) => ArraySizedElement {
                name: string_of(&chars_of(it.name.as_str())),
                typ,
                default: match &it.default {
                    Some(d) => Some(string_of(&chars_of(d.as_str()))),
                    None => None,
                },
                desc: if with_desc {
                    match &it.desc {
                        Some(d) => Some(string_of(&chars_of(d.as_str()))),
                        None => None,
                    }
                } else {
                    None
                },
                since: match &it.since {
                    Some(s) => Some(*s),
                    None => None,
                },
            },
            _ => ArraySizedElement { name: String::new(), typ, default: None, desc: None, since: None },
        };
        out.push(e);
        i += 1;
    }
    assert(elements_model(out@) =~= params_model(items@).map_values(|q: ParamModel| param_element(q, with_desc)));
    out
}


// ----- names of the items of a parameter -----

/// The names of the items of a parameter, in order.
pub open spec fn param_names(p: ParamModel) -> Seq<Seq<char>>
    decreases p,
{
    match p {
        ParamModel::Item(it) => seq![it.name],
        ParamModel::Array(v) => param_list_names(v),
        ParamModel::Infinite(v) => param_list_names(v),
    }
}

/// The names of the items of a list of parameters, in order.
pub open spec fn param_list_names(v: Seq<ParamModel>) -> Seq<Seq<char>>
    decreases v,
{
    if v.len() == 0 {
        Seq::empty()
    } else {
        param_list_names(v.subrange(0, v.len() - 1)) + param_names(v[v.len() - 1])
    }
}

proof fn lemma_first_named_found(pool: Seq<ParamItemModel>, name: Seq<char>)
    ensures
        first_named(pool, name) matches Some(k) ==> 0 <= k < pool.len() && pool[k].name == name,
    decreases pool.len(),
{
    if pool.len() > 0 {
        lemma_first_named_found(pool.drop_last(), name);
    }
}

/// A parameter built from an argument holds, in order, items with the names
/// that the argument names (`Arg::names`): each item is the pool's item of that name.
pub proof fn lemma_built_param_names(a: ArgModel, pool: Seq<ParamItemModel>)
    ensures
        param_of_arg(a, pool) matches Ok(p) ==> param_names(p) == arg_names(a),
    decreases a,
{
    match a {
        ArgModel::Item(name) => {
            lemma_first_named_found(pool, name);
        },
        ArgModel::Array(v) => {
            lemma_built_list_names(v, pool);
        },
        ArgModel::InfiniteItem(b) => {
            lemma_built_param_names(*b, pool);
            match param_of_arg(*b, pool) {
                Ok(p0) => {
                    assert(seq![p0].subrange(0, 0) =~= Seq::<ParamModel>::empty());
                    assert(param_list_names(Seq::<ParamModel>::empty()) == Seq::<Seq<char>>::empty());
                    assert(param_list_names(seq![p0]) =~= param_names(p0));
                },
                Err(_) => {},
            }
        },
        ArgModel::InfiniteFlat(v) => {
            lemma_built_list_names(v, pool);
        },
    }
}

/// The parameters built from a list of arguments name their items as the list does.
pub proof fn lemma_built_list_names(v: Seq<ArgModel>, pool: Seq<ParamItemModel>)
    ensures
        params_of_args(v, pool) matches Ok(ps) ==> param_list_names(ps) == list_names(v),
    decreases v,
{
    if v.len() > 0 {
        let front = v.subrange(0, v.len() - 1);
        lemma_built_list_names(front, pool);
        lemma_built_param_names(v[v.len() - 1], pool);
        match params_of_args(front, pool) {
            Ok(ps0) => match param_of_arg(v[v.len() - 1], pool) {
                Ok(p) => {
                    let ps = ps0.push(p);
                    assert(ps.subrange(0, ps.len() - 1) =~= ps0);
                    assert(ps[ps.len() - 1] == p);
                },
                Err(_) => {},
            },
            Err(_) => {},
        }
    }
}


/// The names of a call's parameters, as `Call::param_names` lists them (left
/// first), are those of the items of the parameters built on its two sides.
pub proof fn lemma_call_param_names(c: CallModel, pool: Seq<ParamItemModel>)
    requires
        c is Binary,
    ensures
        param_of_call(c, true, pool) matches Ok(l) ==> param_of_call(c, false, pool) matches Ok(r)
            ==> param_names(l) + param_names(r) == arg_names(c->Binary_0) + arg_names(c->Binary_1),
{
    lemma_built_param_names(c->Binary_0, pool);
    lemma_built_param_names(c->Binary_1, pool);
}


/// Every name of the list is the name of an item of the pool.
pub open spec fn all_in_pool(names: Seq<Seq<char>>, pool: Seq<ParamItemModel>) -> bool {
    forall|i: int| 0 <= i < names.len() ==> (#[trigger] first_named(pool, names[i])) is Some
}

/// Building a parameter from an argument succeeds exactly when the pool has an
/// item for every name of the argument.
pub proof fn lemma_built_iff_named(a: ArgModel, pool: Seq<ParamItemModel>)
    ensures
        (param_of_arg(a, pool) is Ok) == all_in_pool(arg_names(a), pool),
    decreases a,
{
    match a {
        ArgModel::Item(name) => {
            assert(arg_names(a) =~= seq![name]);
            if first_named(pool, name) is None {
                assert(!all_in_pool(arg_names(a), pool)) by {
                    assert(arg_names(a)[0] == name);
                }
            }
        },
        ArgModel::Array(v) => {
            lemma_list_built_iff_named(v, pool);
        },
        ArgModel::InfiniteItem(b) => {
            lemma_built_iff_named(*b, pool);
        },
        ArgModel::InfiniteFlat(v) => {
            lemma_list_built_iff_named(v, pool);
        },
    }
}

/// Building the parameters of a list of arguments succeeds exactly when the
/// pool has an item for every name of the list.
pub proof fn lemma_list_built_iff_named(v: Seq<ArgModel>, pool: Seq<ParamItemModel>)
    ensures
        (params_of_args(v, pool) is Ok) == all_in_pool(list_names(v), pool),
    decreases v,
{
    if v.len() > 0 {
        let front = v.subrange(0, v.len() - 1);
        let last = v[v.len() - 1];
        lemma_list_built_iff_named(front, pool);
        lemma_built_iff_named(last, pool);
        let f = list_names(front);
        let l = arg_names(last);
        assert(list_names(v) == f + l);
        if all_in_pool(f, pool) && all_in_pool(l, pool) {
            assert forall|i: int| 0 <= i < (f + l).len() implies (#[trigger] first_named(pool, (f + l)[i])) is Some by {
                if i < f.len() {
                    assert((f + l)[i] == f[i]);
                } else {
                    assert((f + l)[i] == l[i - f.len()]);
                }
            }
        }
        if all_in_pool(f + l, pool) {
            assert forall|i: int| 0 <= i < f.len() implies (#[trigger] first_named(pool, f[i])) is Some by {
                assert((f + l)[i] == f[i]);
            }
            assert forall|i: int| 0 <= i < l.len() implies (#[trigger] first_named(pool, l[i])) is Some by {
                assert((f + l)[i + f.len()] == l[i]);
            }
        }
    } else {
        assert(list_names(v) =~= Seq::<Seq<char>>::empty());
    }
}

} // verus!
