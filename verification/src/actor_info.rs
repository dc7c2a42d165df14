//! Information about an actor: id, name and the type of the actor.
use vstd::prelude::*;
use crate::text::{decimal, last_segment, last_segment_of, push_decimal};

verus! {

/// Information about an actor: its id, its name (empty when it has none) and the type of
/// the actor (the last segment of its type path). Can also describe a span for tracing.
#[derive(Debug)]
pub struct ActorInfo {
    pub(crate) id: usize,
    pub(crate) name: String,
    pub(crate) actor_type: String,
}

/// The fields of the tracing span that identifies an actor: a span at error level named
/// "actor", with the fields `id`, `type` and, when the actor has a name, `a_name`.
#[derive(Debug)]
pub struct ActorSpan {
    /// The id of the actor.
    pub id: usize,
    /// The type of the actor.
    pub actor_type: String,
    /// The name of the actor, absent when it has none.
    pub a_name: Option<String>,
}

/// The human readable form of an actor: "Type: id=7", or "Type: id=7, name=foo" when it
/// has a name.
pub open spec fn info_text(id: nat, name: Seq<char>, actor_type: Seq<char>) -> Seq<char> {
    if name.len() == 0 {
        actor_type + ": id="@ + decimal(id)
    } else {
        actor_type + ": id="@ + decimal(id) + ", name="@ + name
    }
}

impl ActorInfo {
    /// The id of the actor.
    pub closed spec fn spec_id(&self) -> usize {
        self.id
    }

    /// The name of the actor, empty when it has none.
    pub closed spec fn spec_name(&self) -> Seq<char> {
        self.name@
    }

    /// The type of the actor.
    pub closed spec fn spec_actor_type(&self) -> Seq<char> {
        self.actor_type@
    }

    /// Two infos describe the same actor in the same words.
    pub open spec fn same(&self, other: &ActorInfo) -> bool {
        &&& self.spec_id() == other.spec_id()
        &&& self.spec_name() == other.spec_name()
        &&& self.spec_actor_type() == other.spec_actor_type()
    }

    /// Setup actor information. `type_path` is the full path of the actor's type, as
    /// `std::any::type_name` gives it; only its last segment is kept.
    pub fn new(id: usize, name: String, type_path: &str) -> (res: Self)
        ensures
            res.spec_id() == id,
            res.spec_name() == name@,
            res.spec_actor_type() == last_segment(type_path@),
    {
        ActorInfo { id, name, actor_type: Self::gen_name(type_path) }
    }

    /// The type name of an actor from the full path of its type: its last segment.
    pub fn gen_name(type_path: &str) -> (res: String)
        ensures
            res@ == last_segment(type_path@),
    {
        last_segment_of(type_path)
    }

    /// The type of the actor.
    pub fn actor_type(&self) -> (res: &str)
        ensures
            res@ == self.spec_actor_type(),
    {
        self.actor_type.as_str()
    }

    /// The id of the actor.
    pub fn id(&self) -> (res: usize)
        ensures
            res == self.spec_id(),
    {
        self.id
    }

    /// The name of the actor, empty when it has none.
    pub fn name(&self) -> (res: &str)
        ensures
            res@ == self.spec_name(),
    {
        self.name.as_str()
    }

    /// The fields of a span identifying the actor with its id, type and name if it has one.
    pub fn span(&self) -> (res: ActorSpan)
        ensures
            res.id == self.spec_id(),
            res.actor_type@ == self.spec_actor_type(),
            res.a_name is None <==> self.spec_name().len() == 0,
            res.a_name matches Some(n) ==> n@ == self.spec_name(),
    {
        let a_name = if self.name.as_str().unicode_len() == 0 {
            None
        } else {
            Some(self.name.clone())
        };
        ActorSpan { id: self.id, actor_type: self.actor_type.clone(), a_name }
    }

    /// The human readable form of the actor information.
    pub fn to_string(&self) -> (res: String)
        ensures
            res@ == info_text(self.spec_id() as nat, self.spec_name(), self.spec_actor_type()),
    {
        let mut s = self.actor_type.clone();
        s.append(": id=");
        push_decimal(&mut s, self.id);
        if self.name.as_str().unicode_len() != 0 {
            s.append(", name=");
            s.append(self.name.as_str());
        }
        s
    }
}

impl Clone for ActorInfo {
    fn clone(&self) -> (res: Self)
        ensures
            res.same(self),
    {
        ActorInfo { id: self.id, name: self.name.clone(), actor_type: self.actor_type.clone() }
    }
}

/// Two infos are equal when their id, name and type are equal.
impl PartialEq for ActorInfo {
    fn eq(&self, other: &Self) -> (res: bool) {
        self.id == other.id && self.name == other.name && self.actor_type == other.actor_type
    }
}

impl vstd::std_specs::cmp::PartialEqSpecImpl for ActorInfo {
    open spec fn obeys_eq_spec() -> bool {
        true
    }

    open spec fn eq_spec(&self, other: &Self) -> bool {
        self.same(other)
    }
}

impl Eq for ActorInfo {

}

} // verus!
