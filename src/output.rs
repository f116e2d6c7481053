use vstd::prelude::*;
use crate::job::{action_key, output_key, Action};
use crate::json::{Json, JsonValue};
use crate::text::same_text;

verus! {

pub type Fields = Seq<(Seq<char>, Json)>;

/// No key occurs twice.
pub open spec fn keys_unique(fields: Fields) -> bool {
    forall|i: int, j: int| 0 <= i < j < fields.len() ==> fields[i].0 != fields[j].0
}

pub open spec fn has_key(fields: Fields, key: Seq<char>) -> bool {
    exists|i: int| 0 <= i < fields.len() && #[trigger] fields[i].0 == key
}

/// `fields` with `key` set to `value`: in place where the key is present,
/// else at the end.
pub open spec fn put(fields: Fields, key: Seq<char>, value: Json) -> Fields {
    if has_key(fields, key) {
        let i = choose|i: int| 0 <= i < fields.len() && #[trigger] fields[i].0 == key;
        fields.update(i, (key, value))
    } else {
        fields.push((key, value))
    }
}

/// The output that a job leaves when its actions returned `values`, one per
/// action: each action writes its value under its key, later ones over earlier.
pub open spec fn job_output(actions: Seq<Action>, values: Seq<Json>) -> Fields
    decreases actions.len(),
{
    if actions.len() == 0 || values.len() < actions.len() {
        Seq::empty()
    } else {
        let n = actions.len() - 1;
        let before = job_output(actions.take(n), values.take(n));
        match action_key(actions[n]) {
            Some(k) => put(before, k, values[n]),
            None => before,
        }
    }
}

/// A JSON object under construction, with unique keys.
pub struct ObjectBuilder {
    fields: Vec<(String, JsonValue)>,
}

impl ObjectBuilder {
    pub closed spec fn model(&self) -> Fields {
        Seq::new(self.fields.len() as nat, |i: int| (self.fields[i].0@, self.fields[i].1.view_json()))
    }

    pub closed spec fn wf(&self) -> bool {
        keys_unique(self.model())
    }

    pub fn new() -> (r: ObjectBuilder)
        ensures
            r.wf(),
            r.model() == Seq::<(Seq<char>, Json)>::empty(),
    {
        let r = ObjectBuilder { fields: Vec::new() };
        assert(r.model() =~= Seq::<(Seq<char>, Json)>::empty());
        r
    }

    /// Sets `key` to `value`.
    pub fn insert(&mut self, key: String, value: JsonValue)
        requires
            old(self).wf(),
        ensures
            final(self).wf(),
            final(self).model() == put(old(self).model(), key@, value.view_json()),
    {
        let ghost old_model = self.model();
        let mut i: usize = 0;
        let mut found = false;
        while i < self.fields.len()
            invariant
                0 <= i <= self.fields.len(),
                self.model() == old_model,
                keys_unique(old_model),
                !found ==> forall|j: int| 0 <= j < i ==> old_model[j].0 != key@,
                found ==> i < self.fields.len() && old_model[i as int].0 == key@,
            ensures
                self.model() == old_model,
                !found ==> forall|j: int| 0 <= j < old_model.len() ==> old_model[j].0 != key@,
                found ==> i < self.fields.len() && old_model[i as int].0 == key@,
            decreases self.fields.len() - i,
        {
            if same_text(self.fields[i].0.as_str(), key.as_str()) {
                found = true;
                break;
            }
            i = i + 1;
        }
        let ghost v = value.view_json();
        if found {
            self.fields.set(i, (key, value));
            proof {
                assert(has_key(old_model, key@));
                let c = choose|c: int| 0 <= c < old_model.len() && #[trigger] old_model[c].0 == key@;
                assert(c == i);
                assert(self.model() =~= old_model.update(i as int, (key@, v)));
            }
        } else {
            self.fields.push((key, value));
            proof {
                assert(!has_key(old_model, key@));
                assert(self.model() =~= old_model.push((key@, v)));
            }
        }
    }

    /// Records the output of `action`, under its key; `Fetch` records nothing.
    pub fn record(&mut self, action: &Action, value: JsonValue)
        requires
            old(self).wf(),
        ensures
            final(self).wf(),
            final(self).model() == match action_key(*action) {
                Some(k) => put(old(self).model(), k, value.view_json()),
                None => old(self).model(),
            },
    {
        match output_key(action) {
            Some(k) => self.insert(k, value),
            None => {},
        }
    }

    pub fn finish(self) -> (r: JsonValue)
        ensures
            r.view_json() == Json::Object(self.model()),
    {
        let r = JsonValue::Object(self.fields);
        assert(r.view_json()->Object_0 =~= self.model());
        r
    }
}

/// Setting a key that is already present keeps the length; a new one adds one
/// entry at the end. Either way the keys stay unique.
pub proof fn lemma_put(fields: Fields, key: Seq<char>, value: Json)
    requires
        keys_unique(fields),
    ensures
        keys_unique(put(fields, key, value)),
        has_key(fields, key) ==> put(fields, key, value).len() == fields.len(),
        !has_key(fields, key) ==> put(fields, key, value) == fields.push((key, value)),
        forall|i: int| 0 <= i < fields.len() && fields[i].0 != key ==> #[trigger] put(fields, key, value)[i] == fields[i],
{
    let r = put(fields, key, value);
    if !has_key(fields, key) {
        assert forall|i: int, j: int| 0 <= i < j < r.len() implies r[i].0 != r[j].0 by {
            if j == fields.len() {
                assert(fields[i].0 == r[i].0);
            }
        }
    }
}

/// No action of the sequence is a `Fetch`, and no two share an output key.
pub open spec fn distinct_keys(actions: Seq<Action>) -> bool {
    &&& forall|i: int| 0 <= i < actions.len() ==> (#[trigger] action_key(actions[i])) is Some
    &&& forall|i: int, j: int| 0 <= i < j < actions.len() ==> action_key(actions[i]) != action_key(actions[j])
}

/// A job whose actions record under distinct keys leaves one output entry per
/// action, under that action's key, in the order of the actions.
pub proof fn lemma_one_entry_per_action(actions: Seq<Action>, values: Seq<Json>)
    requires
        distinct_keys(actions),
        values.len() == actions.len(),
    ensures
        job_output(actions, values).len() == actions.len(),
        keys_unique(job_output(actions, values)),
        forall|i: int| 0 <= i < actions.len() ==> Some(#[trigger] job_output(actions, values)[i].0) == action_key(actions[i]),
        forall|i: int| 0 <= i < actions.len() ==> #[trigger] job_output(actions, values)[i].1 == values[i],
    decreases actions.len(),
{
    if actions.len() > 0 {
        let n = actions.len() - 1;
        let pa = actions.take(n);
        let pv = values.take(n);
        assert(distinct_keys(pa)) by {
            assert forall|i: int| 0 <= i < pa.len() implies (#[trigger] action_key(pa[i])) is Some by {
                assert(pa[i] == actions[i]);
            }
            assert forall|i: int, j: int| 0 <= i < j < pa.len() implies action_key(pa[i]) != action_key(pa[j]) by {
                assert(pa[i] == actions[i] && pa[j] == actions[j]);
            }
        }
        lemma_one_entry_per_action(pa, pv);
        let before = job_output(pa, pv);
        let k = action_key(actions[n])->0;
        assert(action_key(actions[n]) is Some);
        assert(!has_key(before, k)) by {
            if has_key(before, k) {
                let i = choose|i: int| 0 <= i < before.len() && #[trigger] before[i].0 == k;
                assert(Some(before[i].0) == action_key(pa[i]));
                assert(pa[i] == actions[i]);
            }
        }
        lemma_put(before, k, values[n]);
        assert forall|i: int| 0 <= i < actions.len() implies Some(#[trigger] job_output(actions, values)[i].0) == action_key(actions[i]) by {
            if i < n {
                assert(pa[i] == actions[i]);
            }
        }
        assert forall|i: int| 0 <= i < actions.len() implies #[trigger] job_output(actions, values)[i].1 == values[i] by {
            if i < n {
                assert(pv[i] == values[i]);
            }
        }
    }
}

} // verus!
