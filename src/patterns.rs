//! Which kinds of model a model name stands for, by the patterns that each kind accepts.

use vstd::prelude::*;

use crate::model::{ModelError, ModelKind};
use crate::text::{contains, lower_of, lowercase, str_contains, str_eq};

verus! {

#[verifier::external_type_specification]
#[verifier::external_body]
pub struct ExYamlError(serde_yaml::Error);

/// What a YAML text holds when it is read as a mapping from names to lists of strings:
/// its entries in the order of their keys, or nothing when it is not such a mapping.
pub uninterp spec fn yaml_string_lists(yaml: Seq<char>) -> Option<Seq<(Seq<char>, Seq<Seq<char>>)>>;

/// Relies on `serde_yaml::from_str`, reading into a `BTreeMap<String, Vec<String>>`,
/// whose entries it hands back in key order.
#[verifier::external_body]
fn parse_string_lists(yaml: &str) -> (r: Result<Vec<(String, Vec<String>)>, serde_yaml::Error>)
    ensures
        match r {
            Ok(v) => yaml_string_lists(yaml@) == Some(v.deep_view()),
            Err(_) => yaml_string_lists(yaml@) is None,
        },
{
    match serde_yaml::from_str::<std::collections::BTreeMap<String, Vec<String>>>(yaml) {
        Ok(m) => Ok(m.into_iter().collect()),
        Err(e) => Err(e),
    }
}

/// The list under the first entry named `key`, or no list at all.
pub open spec fn list_named(entries: Seq<(Seq<char>, Seq<Seq<char>>)>, key: Seq<char>) -> Seq<
    Seq<char>,
>
    decreases entries.len(),
{
    if entries.len() == 0 {
        Seq::empty()
    } else if entries[0].0 == key {
        entries[0].1
    } else {
        list_named(entries.drop_first(), key)
    }
}

/// Each text of `list`, lowercased.
pub open spec fn lowered(list: Seq<Seq<char>>) -> Seq<Seq<char>> {
    list.map_values(|s: Seq<char>| lower_of(s))
}

/// Whether one of the patterns `ps` occurs in `n`.
pub open spec fn any_pattern_in(ps: Seq<Seq<char>>, n: Seq<char>) -> bool {
    exists|i: int| 0 <= i < ps.len() && contains(n, ps[i])
}

/// The patterns lists of each kind of model. Patterns are lowercase.
#[derive(Debug)]
pub struct ModelPatterns {
    pub llama: Vec<String>,
    pub whisper: Vec<String>,
    pub chat_faker: Vec<String>,
}

/// The patterns of the kind `kind` in `m`.
pub open spec fn patterns_for(m: &ModelPatterns, kind: ModelKind) -> Seq<Seq<char>> {
    match kind {
        ModelKind::LLM => m.llama.deep_view(),
        ModelKind::Whisper => m.whisper.deep_view(),
        ModelKind::ChatFaker => m.chat_faker.deep_view(),
    }
}

/// The kinds of `accepted`, in their order, one of whose patterns occurs in `n`.
pub open spec fn matching_kinds(m: &ModelPatterns, n: Seq<char>, accepted: Seq<ModelKind>) -> Seq<
    ModelKind,
>
    decreases accepted.len(),
{
    if accepted.len() == 0 {
        Seq::empty()
    } else {
        let prev = matching_kinds(m, n, accepted.drop_last());
        if any_pattern_in(patterns_for(m, accepted.last()), n) {
            prev.push(accepted.last())
        } else {
            prev
        }
    }
}

/// The list under `key` in `entries`, lowercased.
fn pick_list(entries: &Vec<(String, Vec<String>)>, key: &str) -> (r: Vec<String>)
    ensures
        r.deep_view() == lowered(list_named(entries.deep_view(), key@)),
{
    let ghost all = entries.deep_view();
    let mut i: usize = 0;
    assert(all.subrange(0, all.len() as int) =~= all);
    while i < entries.len()
        invariant
            all == entries.deep_view(),
            i <= entries.len(),
            list_named(all, key@) == list_named(all.subrange(i as int, all.len() as int), key@),
        decreases entries.len() - i,
    {
        let ghost rest = all.subrange(i as int, all.len() as int);
        assert(rest.drop_first() =~= all.subrange(i + 1, all.len() as int));
        if str_eq(entries[i].0.as_str(), key) {
            return lower_all(&entries[i].1);
        }
        i = i + 1;
    }
    Vec::new()
}

/// Each text of `list`, lowercased.
fn lower_all(list: &Vec<String>) -> (r: Vec<String>)
    ensures
        r.deep_view() == lowered(list.deep_view()),
{
    let mut out: Vec<String> = Vec::new();
    let mut i: usize = 0;
    while i < list.len()
        invariant
            i <= list.len(),
            out.deep_view() == lowered(list.deep_view()).take(i as int),
        decreases list.len() - i,
    {
        let s = lowercase(list[i].as_str());
        assert(list.deep_view()[i as int] == list[i as int]@);
        assert(lowered(list.deep_view())[i as int] == s@);
        let ghost before = out.deep_view();
        let ghost sv = s@;
        out.push(s);
        assert(out.deep_view() =~= before.push(sv));
        assert(out.deep_view() =~= lowered(list.deep_view()).take(i + 1));
        i = i + 1;
    }
    assert(lowered(list.deep_view()).take(i as int) =~= lowered(list.deep_view()));
    out
}

/// Pushes `r` onto `v` if one of the patterns `ps` occurs in `n`.
fn find_model_kind(ps: &[String], r: &ModelKind, n: &str, v: &mut Vec<ModelKind>)
    ensures
        any_pattern_in(ps.deep_view(), n@) ==> final(v)@ == old(v)@.push(*r),
        !any_pattern_in(ps.deep_view(), n@) ==> final(v)@ == old(v)@,
{
    let mut i: usize = 0;
    while i < ps.len()
        invariant
            i <= ps.len(),
            *v == *old(v),
            forall|j: int| 0 <= j < i ==> !contains(n@, ps.deep_view()[j]),
        decreases ps.len() - i,
    {
        if str_contains(n, ps[i].as_str()) {
            assert(ps.deep_view()[i as int] == ps[i as int]@);
            assert(0 <= i < ps.deep_view().len() && contains(n@, ps.deep_view()[i as int]));
            v.push(*r);
            return;
        }
        i = i + 1;
    }
}

impl ModelPatterns {
    /// Reads the pattern lists from YAML text, lowercased; a kind without a list has none.
    pub fn new(yaml: &str) -> (r: Result<ModelPatterns, serde_yaml::Error>)
        ensures
            match r {
                Ok(m) => yaml_string_lists(yaml@) is Some && m.llama.deep_view() == lowered(
                    list_named(yaml_string_lists(yaml@).unwrap(), "llama"@),
                ) && m.whisper.deep_view() == lowered(
                    list_named(yaml_string_lists(yaml@).unwrap(), "whisper"@),
                ) && m.chat_faker.deep_view() == lowered(
                    list_named(yaml_string_lists(yaml@).unwrap(), "chat_faker"@),
                ),
                Err(_) => yaml_string_lists(yaml@) is None,
            },
    {
        let entries = parse_string_lists(yaml)?;
        let llama = pick_list(&entries, "llama");
        let whisper = pick_list(&entries, "whisper");
        let chat_faker = pick_list(&entries, "chat_faker");
        Ok(ModelPatterns { llama, whisper, chat_faker })
    }

    /// All kinds of model whose patterns occur in the lowercased `model_name`, in the order
    /// LLM, Whisper, ChatFaker.
    pub fn get_model_kinds(&self, model_name: &str) -> (r: Vec<ModelKind>)
        ensures
            r@ == matching_kinds(
                self,
                lower_of(model_name@),
                seq![ModelKind::LLM, ModelKind::Whisper, ModelKind::ChatFaker],
            ),
    {
        let accepted = [ModelKind::LLM, ModelKind::Whisper, ModelKind::ChatFaker];
        let r = self.get_accepted_model_kinds(model_name, &accepted);
        assert(accepted@ =~= seq![ModelKind::LLM, ModelKind::Whisper, ModelKind::ChatFaker]);
        r
    }

    /// The first kind of `accepted` whose patterns occur in the lowercased `model_name`;
    /// the order of `accepted` decides which one that is.
    pub fn get_top_model_kind(&self, model_name: &str, accepted: &[ModelKind]) -> (r: Result<
        ModelKind,
        ModelError,
    >)
        ensures
            ({
                let kinds = matching_kinds(self, lower_of(model_name@), accepted@);
                match r {
                    Ok(k) => kinds.len() > 0 && k == kinds[0],
                    Err(e) => kinds.len() == 0 && (e matches ModelError::UnknownKind(s) && s@
                        == model_name@),
                }
            }),
    {
        let v = self.get_accepted_model_kinds(model_name, accepted);
        if v.len() == 0 {
            return Err(ModelError::UnknownKind(model_name.to_owned()));
        }
        Ok(v[0])
    }

    /// The kinds of `accepted`, in their order, one of whose patterns occurs in the
    /// lowercased `model_name`.
    pub fn get_accepted_model_kinds(&self, model_name: &str, accepted: &[ModelKind]) -> (r: Vec<
        ModelKind,
    >)
        ensures
            r@ == matching_kinds(self, lower_of(model_name@), accepted@),
    {
        let mut v: Vec<ModelKind> = Vec::new();
        let n = lowercase(model_name);
        let mut i: usize = 0;
        while i < accepted.len()
            invariant
                i <= accepted.len(),
                n@ == lower_of(model_name@),
                v@ == matching_kinds(self, n@, accepted@.take(i as int)),
            decreases accepted.len() - i,
        {
            let kind = &accepted[i];
            let list: &Vec<String> = match kind {
                ModelKind::LLM => &self.llama,
                ModelKind::Whisper => &self.whisper,
                ModelKind::ChatFaker => &self.chat_faker,
            };
            find_model_kind(list.as_slice(), kind, n.as_str(), &mut v);
            assert(accepted@.take(i + 1).drop_last() =~= accepted@.take(i as int));
            i = i + 1;
        }
        assert(accepted@.take(i as int) =~= accepted@);
        v
    }
}

} // verus!
