//! Settings taken from environment variables that share a prefix.

use vstd::prelude::*;
use crate::named::NamedList;
use crate::text::{has_prefix, starts_with, suffix_from};

verus! {

/// One setting: a key (the variable name without the prefix) and its value.
#[derive(Clone, Debug)]
pub struct Setting {
    pub key: String,
    pub value: String,
}

/// The settings read from `vars` for prefix `base`: each variable whose name
/// starts with `base` gives the rest of its name as key, in order.
pub open spec fn settings_for(base: Seq<char>, vars: Seq<(Seq<char>, Seq<char>)>) -> Seq<(Seq<char>, Seq<char>)>
    decreases vars.len(),
{
    if vars.len() == 0 {
        Seq::empty()
    } else {
        let rest = settings_for(base, vars.drop_last());
        let (k, v) = vars.last();
        if has_prefix(k, base) {
            rest.push((k.subrange(base.len() as int, k.len() as int), v))
        } else {
            rest
        }
    }
}

/// The characters of name/value pairs.
pub open spec fn pairs_view(v: Seq<(String, String)>) -> Seq<(Seq<char>, Seq<char>)> {
    v.map_values(|p: (String, String)| (p.0@, p.1@))
}

/// The characters of settings.
pub open spec fn settings_view(v: Seq<Setting>) -> Seq<(Seq<char>, Seq<char>)> {
    v.map_values(|s: Setting| (s.key@, s.value@))
}

/// The settings with prefix `base` among the variables `vars` (name, value),
/// e.g. the process environment.
pub fn env_settings(base: String, vars: &Vec<(String, String)>) -> (res: Vec<Setting>)
    ensures
        settings_view(res@) == settings_for(base@, pairs_view(vars@)),
{
    let ghost model = pairs_view(vars@);
    let mut res: Vec<Setting> = Vec::new();
    let mut i: usize = 0;
    while i < vars.len()
        invariant
            i <= vars.len(),
            model == pairs_view(vars@),
            settings_view(res@) == settings_for(base@, model.take(i as int)),
        decreases vars.len() - i,
    {
        assert(model.take(i + 1).drop_last() == model.take(i as int));
        let ghost before = res@;
        if starts_with(vars[i].0.as_str(), base.as_str()) {
            let key = suffix_from(vars[i].0.as_str(), base.unicode_len());
            res.push(Setting { key, value: vars[i].1.clone() });
            assert(settings_view(res@) =~= settings_view(before).push((model[i as int].0.subrange(base@.len() as int, model[i as int].0.len() as int), model[i as int].1)));
        }
        i = i + 1;
    }
    assert(model.take(vars@.len() as int) == model);
    res
}

/// The value of the last of the settings with key `k`.
pub open spec fn last_value(settings: Seq<(Seq<char>, Seq<char>)>, k: Seq<char>) -> Option<Seq<char>>
    decreases settings.len(),
{
    if settings.len() == 0 {
        None
    } else if settings.last().0 == k {
        Some(settings.last().1)
    } else {
        last_value(settings.drop_last(), k)
    }
}

/// The characters of an optional text.
pub open spec fn opt_view(o: Option<String>) -> Option<Seq<char>> {
    match o {
        Some(s) => Some(s@),
        None => None,
    }
}

/// Settings as a table from key to value.
pub trait ToHashMap {
    /// The table of the settings; a key given twice keeps its last value.
    fn to_hash_map(&self) -> NamedList<String>;
}

impl ToHashMap for Vec<Setting> {
    fn to_hash_map(&self) -> (res: NamedList<String>)
        ensures
            res.wf(),
            forall|k: Seq<char>| #[trigger] opt_view(res.lookup(k)) == last_value(settings_view(self@), k),
    {
        let ghost model = settings_view(self@);
        let mut map: NamedList<String> = NamedList::new();
        let mut i: usize = 0;
        while i < self.len()
            invariant
                i <= self.len(),
                model == settings_view(self@),
                map.wf(),
                forall|k: Seq<char>| #[trigger] opt_view(map.lookup(k)) == last_value(model.take(i as int), k),
            decreases self.len() - i,
        {
            assert(model.take(i + 1).drop_last() == model.take(i as int));
            let ghost old_map = map;
            let _ = map.insert(self[i].key.clone(), self[i].value.clone());
            assert forall|k: Seq<char>| #[trigger] opt_view(map.lookup(k)) == last_value(model.take(i + 1), k) by {
                assert(opt_view(old_map.lookup(k)) == last_value(model.take(i as int), k));
            }
            i = i + 1;
        }
        assert(model.take(self@.len() as int) == model);
        map
    }
}

/// Every setting comes from a variable named by the prefix followed by the
/// setting's key, with the same value.
pub proof fn settings_come_from_prefixed_vars(base: Seq<char>, vars: Seq<(Seq<char>, Seq<char>)>)
    ensures
        forall|i: int| 0 <= i < settings_for(base, vars).len() ==> exists|j: int| 0 <= j < vars.len()
            && (#[trigger] vars[j]).0 == base + (#[trigger] settings_for(base, vars)[i]).0
            && vars[j].1 == settings_for(base, vars)[i].1,
    decreases vars.len(),
{
    if vars.len() > 0 {
        let init = vars.drop_last();
        settings_come_from_prefixed_vars(base, init);
        let rest = settings_for(base, init);
        let s = settings_for(base, vars);
        assert forall|i: int| 0 <= i < s.len() implies exists|j: int| 0 <= j < vars.len()
            && (#[trigger] vars[j]).0 == base + (#[trigger] s[i]).0 && vars[j].1 == s[i].1 by {
            if i < rest.len() {
                assert(s[i] == rest[i]);
                let j = choose|j: int| 0 <= j < init.len() && (#[trigger] init[j]).0 == base + rest[i].0 && init[j].1 == rest[i].1;
                assert(vars[j] == init[j]);
            } else {
                let (k, v) = vars.last();
                assert(has_prefix(k, base));
                assert(s[i] == (k.subrange(base.len() as int, k.len() as int), v));
                assert(k =~= base + k.subrange(base.len() as int, k.len() as int));
                assert(vars[vars.len() - 1] == vars.last());
            }
        }
    }
}

} // verus!
