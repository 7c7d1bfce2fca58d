//! The entity store: the registry of the main device, child devices and
//! services, keyed both by topic id and by cloud external id.

use vstd::prelude::*;
use vstd::string::*;

use crate::text::str_eq;
use crate::topics::TopicId;

verus! {

/// What kind of entity a store entry is.
#[derive(Clone, Copy, PartialEq, Eq, Structural, Debug)]
pub enum EntityType {
    MainDevice,
    ChildDevice,
    Service,
}

/// One registered entity.
pub struct Entity {
    pub topic_id: TopicId,
    pub external_id: String,
    pub entity_type: EntityType,
    pub parent: Option<TopicId>,
}

/// The view of an [`Entity`].
pub struct EntityView {
    pub topic_id: (Seq<char>, Seq<char>),
    pub external_id: Seq<char>,
    pub entity_type: EntityType,
    pub parent: Option<(Seq<char>, Seq<char>)>,
}

impl View for Entity {
    type V = EntityView;

    open spec fn view(&self) -> EntityView {
        EntityView {
            topic_id: self.topic_id@,
            external_id: self.external_id@,
            entity_type: self.entity_type,
            parent: match self.parent {
                None => None,
                Some(p) => Some(p@),
            },
        }
    }
}

/// The first entity with the given topic id, if any.
pub open spec fn spec_find_by_topic(s: Seq<EntityView>, t: (Seq<char>, Seq<char>)) -> Option<
    EntityView,
>
    decreases s.len(),
{
    if s.len() == 0 {
        None
    } else if s[0].topic_id == t {
        Some(s[0])
    } else {
        spec_find_by_topic(s.skip(1), t)
    }
}

/// The first entity with the given external id, if any.
pub open spec fn spec_find_by_external(s: Seq<EntityView>, x: Seq<char>) -> Option<EntityView>
    decreases s.len(),
{
    if s.len() == 0 {
        None
    } else if s[0].external_id == x {
        Some(s[0])
    } else {
        spec_find_by_external(s.skip(1), x)
    }
}

/// No entity has the topic id exactly when the lookup finds none.
pub proof fn lemma_find_by_topic_none(s: Seq<EntityView>, t: (Seq<char>, Seq<char>))
    ensures
        (spec_find_by_topic(s, t) is None) <==> (forall|i: int|
            0 <= i < s.len() ==> #[trigger] s[i].topic_id != t),
    decreases s.len(),
{
    if s.len() > 0 {
        lemma_find_by_topic_none(s.skip(1), t);
        assert(forall|i: int| 0 <= i < s.skip(1).len() ==> #[trigger] s.skip(1)[i] == s[i + 1]);
        if spec_find_by_topic(s, t) is None {
            assert forall|i: int| 0 <= i < s.len() implies #[trigger] s[i].topic_id != t by {
                if i > 0 {
                    assert(s.skip(1)[i - 1] == s[i]);
                }
            }
        }
        if forall|i: int| 0 <= i < s.len() ==> #[trigger] s[i].topic_id != t {
            assert forall|i: int|
                0 <= i < s.skip(1).len() implies #[trigger] s.skip(1)[i].topic_id != t by {
                assert(s.skip(1)[i] == s[i + 1]);
            }
        }
    }
}

/// No entity has the external id exactly when the lookup finds none.
pub proof fn lemma_find_by_external_none(s: Seq<EntityView>, x: Seq<char>)
    ensures
        (spec_find_by_external(s, x) is None) <==> (forall|i: int|
            0 <= i < s.len() ==> #[trigger] s[i].external_id != x),
    decreases s.len(),
{
    if s.len() > 0 {
        lemma_find_by_external_none(s.skip(1), x);
        assert(forall|i: int| 0 <= i < s.skip(1).len() ==> #[trigger] s.skip(1)[i] == s[i + 1]);
        if spec_find_by_external(s, x) is None {
            assert forall|i: int| 0 <= i < s.len() implies #[trigger] s[i].external_id != x by {
                if i > 0 {
                    assert(s.skip(1)[i - 1] == s[i]);
                }
            }
        }
        if forall|i: int| 0 <= i < s.len() ==> #[trigger] s[i].external_id != x {
            assert forall|i: int|
                0 <= i < s.skip(1).len() implies #[trigger] s.skip(1)[i].external_id != x by {
                assert(s.skip(1)[i] == s[i + 1]);
            }
        }
    }
}

/// The store after an attempted registration: the entity is appended exactly
/// when neither of its keys is taken and it is not a second main device.
pub open spec fn spec_upserted(store: Seq<EntityView>, e: EntityView) -> Seq<EntityView> {
    if spec_find_by_topic(store, e.topic_id) is None && spec_find_by_external(
        store,
        e.external_id,
    ) is None && e.entity_type != EntityType::MainDevice {
        store.push(e)
    } else {
        store
    }
}

/// The in-memory registry.  Index `0` is always the main device; topic ids and
/// external ids are unique across the store.
pub struct EntityStore {
    pub entities: Vec<Entity>,
}

impl View for EntityStore {
    type V = Seq<EntityView>;

    open spec fn view(&self) -> Seq<EntityView> {
        self.entities@.map_values(|e: Entity| e@)
    }
}

impl EntityStore {
    /// The store's invariant: one main device at index `0`, no other main
    /// device, and both keys unique.
    pub open spec fn wf(&self) -> bool {
        &&& self@.len() >= 1
        &&& self@[0].entity_type == EntityType::MainDevice
        &&& forall|i: int| 1 <= i < self@.len() ==> (#[trigger] self@[i].entity_type)
            != EntityType::MainDevice
        &&& forall|i: int, j: int|
            0 <= i < j < self@.len() ==> (#[trigger] self@[i].topic_id) != (
            #[trigger] self@[j].topic_id)
        &&& forall|i: int, j: int|
            0 <= i < j < self@.len() ==> (#[trigger] self@[i].external_id) != (
            #[trigger] self@[j].external_id)
    }

    /// A fresh store holding only the main device, `device/main//`, under the
    /// given cloud external id.
    pub fn new(main_external_id: String) -> (r: EntityStore)
        ensures
            r.wf(),
            r@.len() == 1,
            r@[0].topic_id == ("main"@, Seq::<char>::empty()),
            r@[0].external_id == main_external_id@,
            r@[0].entity_type == EntityType::MainDevice,
    {
        let main = Entity {
            topic_id: TopicId::for_device(String::from_str("main")),
            external_id: main_external_id,
            entity_type: EntityType::MainDevice,
            parent: None,
        };
        let mut entities: Vec<Entity> = Vec::new();
        entities.push(main);
        let r = EntityStore { entities };
        proof {
            assert(r@ =~= seq![r.entities@[0]@]);
        }
        r
    }

    fn get_at<'a>(&'a self, t: &TopicId, i: usize) -> (r: Option<&'a Entity>)
        requires
            i <= self@.len(),
        ensures
            match r {
                Some(e) => spec_find_by_topic(self@.skip(i as int), t@) == Some(e@),
                None => spec_find_by_topic(self@.skip(i as int), t@) is None,
            },
        decreases self@.len() - i,
    {
        proof {
            if i < self@.len() {
                assert(self@.skip(i as int)[0] == self@[i as int]);
                assert(self@.skip(i as int).skip(1) =~= self@.skip(i + 1 as int));
            }
        }
        if i == self.entities.len() {
            None
        } else if self.entities[i].topic_id.same(t) {
            Some(&self.entities[i])
        } else {
            self.get_at(t, i + 1)
        }
    }

    /// The entity registered under a topic id.
    pub fn get<'a>(&'a self, t: &TopicId) -> (r: Option<&'a Entity>)
        ensures
            match r {
                Some(e) => spec_find_by_topic(self@, t@) == Some(e@),
                None => spec_find_by_topic(self@, t@) is None,
            },
    {
        proof {
            assert(self@.skip(0) =~= self@);
        }
        self.get_at(t, 0)
    }

    fn get_by_external_at<'a>(&'a self, x: &str, i: usize) -> (r: Option<&'a Entity>)
        requires
            i <= self@.len(),
        ensures
            match r {
                Some(e) => spec_find_by_external(self@.skip(i as int), x@) == Some(e@),
                None => spec_find_by_external(self@.skip(i as int), x@) is None,
            },
        decreases self@.len() - i,
    {
        proof {
            if i < self@.len() {
                assert(self@.skip(i as int)[0] == self@[i as int]);
                assert(self@.skip(i as int).skip(1) =~= self@.skip(i + 1 as int));
            }
        }
        if i == self.entities.len() {
            None
        } else if str_eq(self.entities[i].external_id.as_str(), x) {
            Some(&self.entities[i])
        } else {
            self.get_by_external_at(x, i + 1)
        }
    }

    /// The entity registered under a cloud external id.
    pub fn get_by_external_id<'a>(&'a self, x: &str) -> (r: Option<&'a Entity>)
        ensures
            match r {
                Some(e) => spec_find_by_external(self@, x@) == Some(e@),
                None => spec_find_by_external(self@, x@) is None,
            },
    {
        proof {
            assert(self@.skip(0) =~= self@);
        }
        self.get_by_external_at(x, 0)
    }

    /// Registers an entity unless either of its keys is already taken: the
    /// first writer wins, and a main device can only come from [`Self::new`].
    /// Returns whether the entity was inserted.
    pub fn upsert(&mut self, e: Entity) -> (inserted: bool)
        requires
            old(self).wf(),
        ensures
            final(self).wf(),
            final(self)@ == spec_upserted(old(self)@, e@),
            inserted ==> final(self)@ == old(self)@.push(e@) && spec_find_by_topic(
                old(self)@,
                e@.topic_id,
            ) is None && spec_find_by_external(old(self)@, e@.external_id) is None
                && e@.entity_type != EntityType::MainDevice,
            !inserted ==> final(self)@ == old(self)@ && (spec_find_by_topic(
                old(self)@,
                e@.topic_id,
            ) is Some || spec_find_by_external(old(self)@, e@.external_id) is Some
                || e@.entity_type == EntityType::MainDevice),
    {
        if matches!(e.entity_type, EntityType::MainDevice) {
            return false;
        }
        if self.get(&e.topic_id).is_some() {
            return false;
        }
        if self.get_by_external_id(e.external_id.as_str()).is_some() {
            return false;
        }
        proof {
            lemma_find_by_topic_none(self@, e@.topic_id);
            lemma_find_by_external_none(self@, e@.external_id);
        }
        let ghost old_view = self@;
        self.entities.push(e);
        proof {
            assert(self@ =~= old_view.push(self.entities@[self.entities@.len() - 1]@));
        }
        true
    }
}

} // verus!
