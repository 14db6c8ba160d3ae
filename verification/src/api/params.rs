//! The parameters of a request: a mapping from names to values, kept as a
//! list in the order of the names, so that each mapping has one list.

use crate::text::{
    is_text_before, lemma_text_before_total, lemma_text_before_transitive, same_text, text_before,
};
use vstd::prelude::*;
use vstd::string::*;

verus! {

/// A parameter as plain values: its name and its value.
pub type ParamView = (Seq<char>, Seq<char>);

/// The parameters of `params` as plain values.
pub open spec fn param_views(params: Seq<(String, String)>) -> Seq<ParamView> {
    Seq::new(params.len(), |i: int| (params[i].0@, params[i].1@))
}

/// The names of `params` stand in the order of their bytes, each before the
/// next; so no name occurs twice.
pub open spec fn sorted_names(params: Seq<ParamView>) -> bool {
    forall|i: int, j: int|
        0 <= i < j < params.len() ==> text_before(#[trigger] params[i].0, #[trigger] params[j].0)
}

/// The place of `name` in `params`: that of the first name that does not
/// come before it, or their length where every name does.
pub open spec fn name_index(params: Seq<ParamView>, name: Seq<char>) -> nat
    decreases params.len(),
{
    if params.len() == 0 || !text_before(params[0].0, name) {
        0
    } else {
        1 + name_index(params.drop_first(), name)
    }
}

/// The value that `params` has under `name`, if any.
pub open spec fn param_value(params: Seq<ParamView>, name: Seq<char>) -> Option<Seq<char>> {
    let index = name_index(params, name) as int;
    if index < params.len() && params[index].0 == name {
        Some(params[index].1)
    } else {
        None
    }
}

/// `params` with `name` set to `value`: in the place of the name, instead of
/// the value that stood there or as a new parameter.
pub open spec fn with_param(params: Seq<ParamView>, name: Seq<char>, value: Seq<char>) -> Seq<
    ParamView,
> {
    let index = name_index(params, name) as int;
    if index < params.len() && params[index].0 == name {
        params.update(index, (name, value))
    } else {
        params.insert(index, (name, value))
    }
}

/// A parameter as it is written: its name, `=`, its value.
pub open spec fn param_text(param: ParamView) -> Seq<char> {
    param.0 + "="@ + param.1
}

/// The parameters as they are written, with `&` between them.
pub open spec fn joined_params(params: Seq<ParamView>) -> Seq<char>
    decreases params.len(),
{
    if params.len() == 0 {
        Seq::empty()
    } else if params.len() == 1 {
        param_text(params[0])
    } else {
        joined_params(params.drop_last()) + "&"@ + param_text(params.last())
    }
}

/// Every name before the place of `name` comes before it, and the name at
/// the place does not.
pub proof fn lemma_name_index(params: Seq<ParamView>, name: Seq<char>)
    ensures
        name_index(params, name) <= params.len(),
        forall|i: int|
            0 <= i < name_index(params, name) ==> text_before((#[trigger] params[i]).0, name),
        name_index(params, name) < params.len() ==> !text_before(
            params[name_index(params, name) as int].0,
            name,
        ),
    decreases params.len(),
{
    if params.len() != 0 && text_before(params[0].0, name) {
        let rest = params.drop_first();
        lemma_name_index(rest, name);
        assert forall|i: int| 0 <= i < name_index(params, name) implies text_before(
            (#[trigger] params[i]).0,
            name,
        ) by {
            if i > 0 {
                assert(params[i] == rest[i - 1]);
            }
        }
    }
}

/// The place of `name` is the one before which every name comes before it
/// and at which the name does not.
pub proof fn lemma_name_index_is(params: Seq<ParamView>, name: Seq<char>, at: int)
    requires
        0 <= at <= params.len(),
        forall|i: int| 0 <= i < at ==> text_before((#[trigger] params[i]).0, name),
        at == params.len() || !text_before(params[at].0, name),
    ensures
        name_index(params, name) == at,
    decreases at,
{
    if at > 0 {
        let rest = params.drop_first();
        assert(text_before(params[0].0, name));
        assert forall|i: int| 0 <= i < at - 1 implies text_before((#[trigger] rest[i]).0, name) by {
            assert(rest[i] == params[i + 1]);
        }
        lemma_name_index_is(rest, name, at - 1);
    }
}

/// In sorted parameters the names from the place of `name` on are the name
/// itself, if it is there, and then names that come after it.
proof fn lemma_names_after(params: Seq<ParamView>, name: Seq<char>, j: int)
    requires
        sorted_names(params),
        name_index(params, name) <= j < params.len(),
    ensures
        params[j].0 == name || text_before(name, params[j].0),
        params[j].0 == name ==> j == name_index(params, name),
{
    lemma_name_index(params, name);
    let index = name_index(params, name) as int;
    lemma_text_before_total(params[index].0, name);
    if j > index {
        assert(text_before(params[index].0, params[j].0));
        lemma_text_before_total(params[index].0, params[j].0);
        if params[index].0 != name {
            lemma_text_before_transitive(name, params[index].0, params[j].0);
        }
        lemma_text_before_total(name, params[j].0);
    }
}

/// Setting a parameter keeps the names in order. Afterwards the parameters
/// are the one that was set and those that stood there under other names.
pub proof fn lemma_with_param(params: Seq<ParamView>, name: Seq<char>, value: Seq<char>)
    requires
        sorted_names(params),
    ensures
        sorted_names(with_param(params, name, value)),
        forall|param: ParamView| #[trigger]
            with_param(params, name, value).contains(param) <==> (param == (name, value) || (
            params.contains(param) && param.0 != name)),
{
    lemma_name_index(params, name);
    let index = name_index(params, name) as int;
    let result = with_param(params, name, value);
    let present = index < params.len() && params[index].0 == name;
    let shift = if present { 0int } else { 1int };
    // where the parameter at `j` of the result stood before
    assert forall|j: int| 0 <= j < result.len() && j != index implies #[trigger] result[j]
        == params[if j < index { j } else { j - shift }] && result[j].0 != name && (j < index
        ==> text_before(result[j].0, name)) && (j > index ==> text_before(name, result[j].0)) by {
        if j < index {
            assert(text_before(params[j].0, name));
            lemma_text_before_total(params[j].0, name);
        } else {
            lemma_names_after(params, name, j - shift);
            lemma_text_before_total(name, params[j - shift].0);
        }
    }
    assert(result[index] == (name, value));
    assert forall|i: int, j: int| 0 <= i < j < result.len() implies text_before(
        #[trigger] result[i].0,
        #[trigger] result[j].0,
    ) by {
        if i == index {
            assert(text_before(name, result[j].0));
        } else if j == index {
            assert(text_before(result[i].0, name));
        } else {
            let before_i = if i < index { i } else { i - shift };
            let before_j = if j < index { j } else { j - shift };
            assert(result[i] == params[before_i]);
            assert(result[j] == params[before_j]);
            assert(text_before(params[before_i].0, params[before_j].0));
        }
    }
    assert forall|param: ParamView| #[trigger]
        result.contains(param) <==> (param == (name, value) || (params.contains(param) && param.0
            != name)) by {
        if result.contains(param) {
            let j = choose|j: int| 0 <= j < result.len() && result[j] == param;
            if j != index {
                assert(params[if j < index { j } else { j - shift }] == param);
            }
        }
        if params.contains(param) && param.0 != name {
            let k = choose|k: int| 0 <= k < params.len() && params[k] == param;
            let j = if k < index { k } else { k + shift };
            if k >= index {
                lemma_names_after(params, name, k);
            }
            assert(result[j] == param);
        }
    }
}

/// In sorted parameters no name occurs twice.
pub proof fn lemma_sorted_names_are_distinct(params: Seq<ParamView>, i: int, j: int)
    requires
        sorted_names(params),
        0 <= i < params.len(),
        0 <= j < params.len(),
        i != j,
    ensures
        params[i].0 != params[j].0,
{
    if i < j {
        assert(text_before(params[i].0, params[j].0));
    } else {
        assert(text_before(params[j].0, params[i].0));
    }
    lemma_text_before_total(params[i].0, params[j].0);
}

/// Sorted parameters are one list for one mapping: two of them that hold
/// the same parameters are equal.
pub proof fn lemma_sorted_params_are_equal(left: Seq<ParamView>, right: Seq<ParamView>)
    requires
        sorted_names(left),
        sorted_names(right),
        forall|param: ParamView| left.contains(param) <==> right.contains(param),
    ensures
        left == right,
    decreases left.len(),
{
    if left.len() == 0 {
        if right.len() > 0 {
            assert(right.contains(right[0]));
        }
        assert(left =~= right);
    } else {
        let last = left.last();
        assert(left.contains(left[left.len() - 1]));
        assert(right.contains(last));
        let other = right.last();
        assert(right.contains(right[right.len() - 1]));
        assert(left.contains(other));
        let j = choose|j: int| 0 <= j < right.len() && right[j] == last;
        let i = choose|i: int| 0 <= i < left.len() && left[i] == other;
        lemma_text_before_total(last.0, other.0);
        if j < right.len() - 1 {
            assert(text_before(right[j].0, right[right.len() - 1].0));
            if i < left.len() - 1 {
                assert(text_before(left[i].0, left[left.len() - 1].0));
            }
        }
        assert(last == other);
        let left_rest = left.drop_last();
        let right_rest = right.drop_last();
        assert forall|param: ParamView| left_rest.contains(param) <==> right_rest.contains(
            param,
        ) by {
            if left_rest.contains(param) {
                let k = choose|k: int| 0 <= k < left_rest.len() && left_rest[k] == param;
                assert(left[k] == param);
                assert(left.contains(param));
                let m = choose|m: int| 0 <= m < right.len() && right[m] == param;
                lemma_sorted_names_are_distinct(left, k, left.len() - 1);
                assert(right_rest[m] == param);
            }
            if right_rest.contains(param) {
                let k = choose|k: int| 0 <= k < right_rest.len() && right_rest[k] == param;
                assert(right[k] == param);
                assert(right.contains(param));
                let m = choose|m: int| 0 <= m < left.len() && left[m] == param;
                lemma_sorted_names_are_distinct(right, k, right.len() - 1);
                assert(left_rest[m] == param);
            }
        }
        assert(sorted_names(left_rest)) by {
            assert forall|a: int, b: int| 0 <= a < b < left_rest.len() implies text_before(
                #[trigger] left_rest[a].0,
                #[trigger] left_rest[b].0,
            ) by {
                assert(text_before(left[a].0, left[b].0));
            }
        }
        assert(sorted_names(right_rest)) by {
            assert forall|a: int, b: int| 0 <= a < b < right_rest.len() implies text_before(
                #[trigger] right_rest[a].0,
                #[trigger] right_rest[b].0,
            ) by {
                assert(text_before(right[a].0, right[b].0));
            }
        }
        lemma_sorted_params_are_equal(left_rest, right_rest);
        assert(left =~= left_rest.push(last));
        assert(right =~= right_rest.push(other));
    }
}

/// The parameters are a mapping: for two different names it does not matter
/// which of them is set first.
pub proof fn lemma_with_param_commutes(
    params: Seq<ParamView>,
    first: ParamView,
    second: ParamView,
)
    requires
        sorted_names(params),
        first.0 != second.0,
    ensures
        with_param(with_param(params, first.0, first.1), second.0, second.1) == with_param(
            with_param(params, second.0, second.1),
            first.0,
            first.1,
        ),
{
    let one = with_param(params, first.0, first.1);
    let other = with_param(params, second.0, second.1);
    lemma_with_param(params, first.0, first.1);
    lemma_with_param(params, second.0, second.1);
    lemma_with_param(one, second.0, second.1);
    lemma_with_param(other, first.0, first.1);
    let left = with_param(one, second.0, second.1);
    let right = with_param(other, first.0, first.1);
    assert forall|param: ParamView| left.contains(param) <==> right.contains(param) by {
        assert(one.contains(param) <==> (param == first || (params.contains(param) && param.0
            != first.0)));
        assert(other.contains(param) <==> (param == second || (params.contains(param) && param.0
            != second.0)));
    }
    lemma_sorted_params_are_equal(left, right);
}

/// The last value wins: a name that is set twice has the second value, as if
/// it had been set once.
pub proof fn lemma_with_param_again(
    params: Seq<ParamView>,
    name: Seq<char>,
    first: Seq<char>,
    second: Seq<char>,
)
    requires
        sorted_names(params),
    ensures
        with_param(with_param(params, name, first), name, second) == with_param(
            params,
            name,
            second,
        ),
{
    let once = with_param(params, name, first);
    lemma_with_param(params, name, first);
    lemma_with_param(params, name, second);
    lemma_with_param(once, name, second);
    let left = with_param(once, name, second);
    let right = with_param(params, name, second);
    assert forall|param: ParamView| left.contains(param) <==> right.contains(param) by {
        assert(once.contains(param) <==> (param == (name, first) || (params.contains(param)
            && param.0 != name)));
    }
    lemma_sorted_params_are_equal(left, right);
}

/// After a name is set it has the value, and every other name has the value
/// that it had.
pub proof fn lemma_param_value(
    params: Seq<ParamView>,
    name: Seq<char>,
    value: Seq<char>,
    other: Seq<char>,
)
    requires
        sorted_names(params),
    ensures
        param_value(with_param(params, name, value), name) == Some(value),
        other != name ==> param_value(with_param(params, name, value), other) == param_value(
            params,
            other,
        ),
{
    let result = with_param(params, name, value);
    lemma_with_param(params, name, value);
    lemma_value_is_contained(result, name, value);
    assert(result.contains((name, value)));
    if other != name {
        match param_value(params, other) {
            Some(found) => {
                lemma_value_is_contained(params, other, found);
                assert(result.contains((other, found)));
                lemma_value_is_contained(result, other, found);
            },
            None => {
                match param_value(result, other) {
                    Some(found) => {
                        lemma_value_is_contained(result, other, found);
                        assert(params.contains((other, found)));
                        lemma_value_is_contained(params, other, found);
                    },
                    None => {},
                }
            },
        }
    }
}

/// A name has a value in sorted parameters exactly when they hold the two
/// as a parameter.
pub proof fn lemma_value_is_contained(params: Seq<ParamView>, name: Seq<char>, value: Seq<char>)
    requires
        sorted_names(params),
    ensures
        param_value(params, name) == Some(value) <==> params.contains((name, value)),
{
    lemma_name_index(params, name);
    let index = name_index(params, name) as int;
    if param_value(params, name) == Some(value) {
        assert(params[index] == (name, value));
    }
    if params.contains((name, value)) {
        let k = choose|k: int| 0 <= k < params.len() && params[k] == (name, value);
        if k < index {
            assert(text_before(params[k].0, name));
            lemma_text_before_total(name, name);
        } else {
            lemma_names_after(params, name, k);
        }
    }
}

/// The mapping that a list of parameters stands for: each is set in turn, so
/// of a name that is given more than once the last value stays.
pub open spec fn as_mapping(params: Seq<ParamView>) -> Seq<ParamView>
    decreases params.len(),
{
    if params.len() == 0 {
        Seq::empty()
    } else {
        with_param(as_mapping(params.drop_last()), params.last().0, params.last().1)
    }
}

/// The mapping of a list has its names in order.
pub proof fn lemma_mapping_is_sorted(params: Seq<ParamView>)
    ensures
        sorted_names(as_mapping(params)),
    decreases params.len(),
{
    if params.len() > 0 {
        lemma_mapping_is_sorted(params.drop_last());
        lemma_with_param(as_mapping(params.drop_last()), params.last().0, params.last().1);
    }
}

/// Parameters whose names are in order are their own mapping.
pub proof fn lemma_mapping_of_sorted(params: Seq<ParamView>)
    requires
        sorted_names(params),
    ensures
        as_mapping(params) == params,
    decreases params.len(),
{
    if params.len() > 0 {
        let rest = params.drop_last();
        let last = params.last();
        assert forall|i: int, j: int| 0 <= i < j < rest.len() implies text_before(
            #[trigger] rest[i].0,
            #[trigger] rest[j].0,
        ) by {
            assert(text_before(params[i].0, params[j].0));
        }
        lemma_mapping_of_sorted(rest);
        assert forall|i: int| 0 <= i < rest.len() implies text_before(
            (#[trigger] rest[i]).0,
            last.0,
        ) by {
            assert(text_before(params[i].0, params[params.len() - 1].0));
        }
        lemma_name_index_is(rest, last.0, rest.len() as int);
        assert(with_param(rest, last.0, last.1) =~= params);
    }
}

/// Finds the place of `name` in `params`.
pub fn find_param(params: &Vec<(String, String)>, name: &str) -> (index: usize)
    ensures
        index == name_index(param_views(params@), name@),
        index <= params@.len(),
{
    let mut index: usize = 0;
    while index < params.len() && is_text_before(params[index].0.as_str(), name)
        invariant
            index <= params@.len(),
            forall|i: int|
                0 <= i < index ==> text_before((#[trigger] param_views(params@)[i]).0, name@),
        decreases params@.len() - index,
    {
        index = index + 1;
    }
    proof {
        lemma_name_index_is(param_views(params@), name@, index as int);
    }
    index
}

/// Sets `name` to `value` in `params`.
pub fn set_param(params: &mut Vec<(String, String)>, name: &str, value: &str)
    ensures
        param_views(final(params)@) == with_param(param_views(old(params)@), name@, value@),
{
    let index = find_param(params, name);
    let ghost before = param_views(params@);
    let param = (String::from_str(name), String::from_str(value));
    if index < params.len() && same_text(params[index].0.as_str(), name) {
        params[index] = param;
        assert(param_views(params@) =~= with_param(before, name@, value@));
    } else {
        params.insert(index, param);
        assert(param_views(params@) =~= with_param(before, name@, value@));
    }
}

/// Turns a list of parameters into the mapping that it stands for.
pub fn to_mapping(params: Vec<(String, String)>) -> (mapping: Vec<(String, String)>)
    ensures
        param_views(mapping@) == as_mapping(param_views(params@)),
{
    let mut mapping: Vec<(String, String)> = Vec::new();
    let ghost views = param_views(params@);
    assert(views.subrange(0, 0) =~= Seq::<ParamView>::empty());
    assert(param_views(mapping@) =~= Seq::<ParamView>::empty());
    for index in 0..params.len()
        invariant
            views == param_views(params@),
            param_views(mapping@) == as_mapping(views.subrange(0, index as int)),
    {
        let ghost next = views.subrange(0, index + 1);
        assert(next.drop_last() =~= views.subrange(0, index as int));
        assert(next.last() == views[index as int]);
        set_param(&mut mapping, params[index].0.as_str(), params[index].1.as_str());
    }
    assert(views.subrange(0, params@.len() as int) =~= views);
    mapping
}

/// Writes the parameters with `&` between them.
pub fn join_params(params: &Vec<(String, String)>) -> (text: String)
    ensures
        text@ == joined_params(param_views(params@)),
{
    let mut text = String::new();
    let ghost views = param_views(params@);
    assert(views.subrange(0, 0) =~= Seq::<ParamView>::empty());
    for index in 0..params.len()
        invariant
            views == param_views(params@),
            text@ == joined_params(views.subrange(0, index as int)),
    {
        let ghost done = views.subrange(0, index as int);
        let ghost next = views.subrange(0, index + 1);
        assert(next.drop_last() =~= done);
        assert(next.last() == views[index as int]);
        if index > 0 {
            text.append("&");
        }
        text.append(params[index].0.as_str());
        text.append("=");
        text.append(params[index].1.as_str());
        assert(text@ =~= joined_params(next));
    }
    assert(views.subrange(0, params@.len() as int) =~= views);
    text
}

} // verus!
