//! The resource table: a handle-indexed arena that owns every stream and
//! readiness handle of one guest.
//!
//! A handle is the index of a slot. A slot counts the resources it has held
//! in its `generation`, so a handle together with a generation names one
//! resource for all time, also after the slot has been given to another.
//!
//! The table is the only owner of its resources. An operation reaches a
//! resource through a borrow of the table that ends with the operation, so
//! no two operations ever hold the same resource, and a resource leaves the
//! table only by `delete`.

use vstd::prelude::*;

verus! {

/// Why the table could not do what it was asked.
#[derive(Debug, Copy, Clone, PartialEq, Eq, Hash, Structural)]
pub enum TableError {
    /// No slot can take a new resource.
    Full,
    /// The handle names no live resource.
    NotPresent,
    /// The handle names a resource of another kind.
    WrongType,
}

/// The kinds of resource that a table holds.
#[derive(Debug, Copy, Clone, PartialEq, Eq, Hash, Structural)]
pub enum Kind {
    /// A stream that the guest reads from.
    Input,
    /// A stream that the guest writes to.
    Output,
    /// A readiness handle.
    Pollable,
}

/// A readiness handle: a reference to a stream of the same table, by handle
/// and generation. It owns nothing, and stays valid to hold when the stream
/// it refers to is gone.
#[derive(Debug, Copy, Clone, PartialEq, Eq, Hash, Structural)]
pub struct HostPollable {
    /// The handle of the stream.
    pub target: u32,
    /// The generation of the stream's slot when the reference was made.
    pub generation: u64,
}

/// A resource owned by the table.
pub enum Resource<I, O> {
    /// An input stream: its backend, the bytes that were read from the
    /// backend and wait to be handed on, and whether the backend has
    /// reported its end.
    Input { stream: I, pending: Vec<u8>, ended: bool },
    /// An output stream.
    Output(O),
    /// A readiness handle.
    Pollable(HostPollable),
}

impl<I, O> Resource<I, O> {
    /// The kind of this resource.
    pub open spec fn kind(&self) -> Kind {
        match self {
            Resource::Input { .. } => Kind::Input,
            Resource::Output(_) => Kind::Output,
            Resource::Pollable(_) => Kind::Pollable,
        }
    }

    /// The bytes of an input stream that wait to be handed on.
    pub open spec fn pending(&self) -> Seq<u8> {
        match self {
            Resource::Input { pending, .. } => pending@,
            _ => Seq::<u8>::empty(),
        }
    }

    /// Whether this is an input stream whose backend has reported its end.
    pub open spec fn ended(&self) -> bool {
        *self matches Resource::Input { ended, .. } && ended
    }

    /// Whether this is an input stream that has nothing more to give: its
    /// backend has reported its end and no bytes wait.
    pub open spec fn at_end(&self) -> bool {
        self.ended() && self.pending().len() == 0
    }

    /// Whether `later` can be this resource at a later time: the kind is
    /// kept, an input stream whose backend has ended stays so and gets no
    /// new bytes to hand on, and a readiness handle refers to what it
    /// referred to.
    pub open spec fn persists_as(&self, later: &Self) -> bool {
        match (*self, *later) {
            (Resource::Input { .. }, Resource::Input { .. }) => self.ended() ==> later.ended()
                && later.pending().len() <= self.pending().len(),
            (Resource::Output(_), Resource::Output(_)) => true,
            (Resource::Pollable(before), Resource::Pollable(after)) => before == after,
            _ => false,
        }
    }

    fn has_kind(&self, kind: Kind) -> (yes: bool)
        ensures
            yes == (self.kind() == kind),
    {
        match (self, kind) {
            (Resource::Input { .. }, Kind::Input) => true,
            (Resource::Output(_), Kind::Output) => true,
            (Resource::Pollable(_), Kind::Pollable) => true,
            _ => false,
        }
    }
}

/// One slot of the arena.
pub struct Slot<I, O> {
    /// How many resources this slot has held, the present one included.
    pub generation: u64,
    /// The resource, while the slot is live.
    pub resource: Option<Resource<I, O>>,
}

impl<I, O> Slot<I, O> {
    /// A slot that a new resource may be put into: it is vacant and its
    /// generation can still be counted up.
    pub open spec fn reusable(&self) -> bool {
        self.resource is None && self.generation < u64::MAX
    }

    /// Whether `later` can be this slot at a later time. Generations only
    /// grow, and a slot that is live at the generation it had before holds
    /// the resource it held before.
    pub open spec fn persists_as(&self, later: &Self) -> bool {
        &&& self.generation <= later.generation
        &&& self.generation == later.generation && later.resource is Some ==> {
            &&& self.resource is Some
            &&& self.resource->0.persists_as(&later.resource->0)
        }
    }
}

/// The resource table.
pub struct Table<I, O> {
    slots: Vec<Slot<I, O>>,
    capacity: u32,
}

impl<I, O> View for Table<I, O> {
    type V = Seq<Slot<I, O>>;

    /// The slots, by handle.
    closed spec fn view(&self) -> Seq<Slot<I, O>> {
        self.slots@
    }
}

impl<I, O> Table<I, O> {
    #[verifier::type_invariant]
    spec fn within_capacity(&self) -> bool {
        self.slots@.len() <= self.capacity
    }

    /// The number of slots that the table may grow to.
    pub closed spec fn capacity(&self) -> nat {
        self.capacity as nat
    }

    /// The resource that `handle` names, if it names one.
    pub open spec fn resource(&self, handle: u32) -> Option<Resource<I, O>> {
        if handle < self@.len() {
            self@[handle as int].resource
        } else {
            None
        }
    }

    /// The generation of the slot of `handle`; zero for a handle that was
    /// never given out.
    pub open spec fn generation(&self, handle: u32) -> u64 {
        if handle < self@.len() {
            self@[handle as int].generation
        } else {
            0
        }
    }

    /// What a lookup of `handle` as a resource of `kind` finds.
    pub open spec fn lookup(&self, handle: u32, kind: Kind) -> Result<Resource<I, O>, TableError> {
        match self.resource(handle) {
            None => Err(TableError::NotPresent),
            Some(resource) => if resource.kind() == kind {
                Ok(resource)
            } else {
                Err(TableError::WrongType)
            },
        }
    }

    /// Whether `handle` names a live resource that is the one its slot held
    /// at `generation`.
    pub open spec fn live_at(&self, handle: u32, generation: u64) -> bool {
        self.resource(handle) is Some && self.generation(handle) == generation
    }

    /// Whether the resource that the slot of `handle` held at `generation`
    /// has been deleted.
    pub open spec fn retired(&self, handle: u32, generation: u64) -> bool {
        &&& handle < self@.len()
        &&& generation <= self.generation(handle)
        &&& !self.live_at(handle, generation)
    }

    /// The bytes that wait to be handed on from the input stream under
    /// `handle`; none where `handle` names no input stream.
    pub open spec fn input_pending(&self, handle: u32) -> Seq<u8> {
        match self.resource(handle) {
            Some(resource) => resource.pending(),
            None => Seq::empty(),
        }
    }

    /// Whether `handle` names an input stream whose backend has reported
    /// its end.
    pub open spec fn input_ended(&self, handle: u32) -> bool {
        self.resource(handle) matches Some(resource) && resource.ended()
    }

    /// Whether `handle` names an input stream that has nothing more to give.
    pub open spec fn input_at_end(&self, handle: u32) -> bool {
        self.resource(handle) matches Some(resource) && resource.at_end()
    }

    /// Whether this table is `before` but for the input stream under
    /// `handle`, which now has `pending` waiting and the end of its backend
    /// reported or not as `ended` says, with the backend as it was.
    pub open spec fn input_changed_from(
        &self,
        before: &Self,
        handle: u32,
        pending: Seq<u8>,
        ended: bool,
    ) -> bool {
        &&& self.same_except(before, handle)
        &&& self.generation(handle) == before.generation(handle)
        &&& before.resource(handle) matches Some(Resource::Input { stream: backend, .. })
        &&& self.resource(handle) matches Some(
            Resource::Input { stream: kept, pending: waiting, ended: reported },
        )
        &&& kept == backend
        &&& waiting@ == pending
        &&& reported == ended
    }

    /// Whether `handle` is the one that the next insertion returns: the
    /// lowest handle of a reusable slot, or that of a new slot where none is
    /// reusable and the table may still grow.
    pub open spec fn is_next_handle(&self, handle: u32) -> bool {
        &&& forall|h: int| 0 <= h < handle && h < self@.len() ==> !(#[trigger] self@[h]).reusable()
        &&& if handle < self@.len() {
            self@[handle as int].reusable()
        } else {
            handle == self@.len() && self@.len() < self.capacity()
        }
    }

    /// Whether no slot can take a new resource.
    pub open spec fn is_full(&self) -> bool {
        &&& self@.len() >= self.capacity()
        &&& forall|h: int| 0 <= h < self@.len() ==> !(#[trigger] self@[h]).reusable()
    }

    /// The slots after `resource` has been put under `handle`.
    pub open spec fn with_resource(&self, handle: u32, resource: Resource<I, O>) -> Seq<
        Slot<I, O>,
    > {
        if handle < self@.len() {
            self@.update(
                handle as int,
                Slot {
                    generation: (self@[handle as int].generation + 1) as u64,
                    resource: Some(resource),
                },
            )
        } else {
            self@.push(Slot { generation: 1, resource: Some(resource) })
        }
    }

    /// Whether this table is `before` with a new resource under `handle`:
    /// the slot of `handle`, an old one or one more, has its generation
    /// counted up and is live, and every other slot is as it was.
    pub open spec fn holds_new(&self, before: &Self, handle: u32) -> bool {
        &&& self.capacity() == before.capacity()
        &&& handle < self@.len()
        &&& self@.len() == if handle < before@.len() {
            before@.len()
        } else {
            before@.len() + 1
        }
        &&& forall|h: int|
            0 <= h < before@.len() && h != handle ==> self@[h] == #[trigger] before@[h]
        &&& self.generation(handle) == before.generation(handle) + 1
        &&& self.resource(handle) is Some
    }

    /// The slots after the resource under `handle` has been taken out.
    pub open spec fn without_resource(&self, handle: u32) -> Seq<Slot<I, O>> {
        self@.update(
            handle as int,
            Slot { generation: self@[handle as int].generation, resource: None },
        )
    }

    /// Whether `later` can be this table at a later time: the capacity is
    /// the same, no slot is lost, and each slot persists.
    pub open spec fn advances_to(&self, later: &Self) -> bool {
        &&& self.capacity() == later.capacity()
        &&& self@.len() <= later@.len()
        &&& forall|h: int|
            0 <= h < self@.len() ==> self@[h].persists_as(&#[trigger] later@[h])
    }

    /// Whether this table and `other` differ at most in the slot of `handle`.
    pub open spec fn same_except(&self, other: &Self, handle: u32) -> bool {
        &&& self.capacity() == other.capacity()
        &&& self@.len() == other@.len()
        &&& forall|h: int| 0 <= h < self@.len() && h != handle ==> self@[h] == #[trigger] other@[h]
    }

    /// Whether this table and `other` differ at most in the slots of `one`
    /// and of `two`.
    pub open spec fn same_except_two(&self, other: &Self, one: u32, two: u32) -> bool {
        &&& self.capacity() == other.capacity()
        &&& self@.len() == other@.len()
        &&& forall|h: int|
            0 <= h < self@.len() && h != one && h != two ==> self@[h] == #[trigger] other@[h]
    }

    /// An empty table that may grow to `capacity` slots.
    pub fn with_capacity(capacity: u32) -> (table: Self)
        ensures
            table@.len() == 0,
            table.capacity() == capacity,
    {
        Table { slots: Vec::new(), capacity }
    }

    /// An empty table of the largest capacity.
    pub fn new() -> (table: Self)
        ensures
            table@.len() == 0,
            table.capacity() == u32::MAX,
    {
        Table { slots: Vec::new(), capacity: u32::MAX }
    }

    /// The lowest reusable slot, if there is one.
    fn first_reusable(&self) -> (found: Option<usize>)
        ensures
            match found {
                Some(index) => index < self@.len() && self@[index as int].reusable() && forall|
                    h: int,
                |
                    0 <= h < index ==> !(#[trigger] self@[h]).reusable(),
                None => forall|h: int| 0 <= h < self@.len() ==> !(#[trigger] self@[h]).reusable(),
            },
    {
        let mut index: usize = 0;
        while index < self.slots.len()
            invariant
                index <= self.slots@.len(),
                forall|h: int| 0 <= h < index ==> !(#[trigger] self.slots@[h]).reusable(),
            decreases self.slots@.len() - index,
        {
            let slot = &self.slots[index];
            if slot.resource.is_none() && slot.generation < u64::MAX {
                return Some(index);
            }
            index += 1;
        }
        None
    }

    /// Puts `resource` into the table and returns its handle. Fails with
    /// `Full`, and drops the resource, exactly when the table is full.
    pub fn push(&mut self, resource: Resource<I, O>) -> (pushed: Result<u32, TableError>)
        ensures
            old(self).advances_to(final(self)),
            match pushed {
                Ok(handle) => {
                    &&& old(self).is_next_handle(handle)
                    &&& !old(self).is_full()
                    &&& final(self)@ == old(self).with_resource(handle, resource)
                    &&& final(self).holds_new(old(self), handle)
                    &&& final(self).resource(handle) == Some(resource)
                },
                Err(error) => {
                    &&& error == TableError::Full
                    &&& old(self).is_full()
                    &&& *final(self) == *old(self)
                },
            },
    {
        proof {
            use_type_invariant(&*self);
        }
        match self.first_reusable() {
            Some(index) => {
                let generation = self.slots[index].generation + 1;
                self.slots[index] = Slot { generation, resource: Some(resource) };
                Ok(index as u32)
            },
            None => {
                if self.slots.len() < self.capacity as usize {
                    let handle = self.slots.len() as u32;
                    let mut slots: Vec<Slot<I, O>> = Vec::new();
                    core::mem::swap(&mut self.slots, &mut slots);
                    slots.push(Slot { generation: 1, resource: Some(resource) });
                    core::mem::swap(&mut self.slots, &mut slots);
                    Ok(handle)
                } else {
                    Err(TableError::Full)
                }
            },
        }
    }
    /// Puts an input stream into the table, with no bytes waiting and its
    /// end not yet reported.
    pub fn push_input_stream(&mut self, stream: I) -> (pushed: Result<u32, TableError>)
        ensures
            old(self).advances_to(final(self)),
            match pushed {
                Ok(handle) => {
                    &&& old(self).is_next_handle(handle)
                    &&& final(self).holds_new(old(self), handle)
                    &&& final(self).resource(handle) matches Some(
                        Resource::Input { stream: backend, pending, ended },
                    )
                    &&& backend == stream
                    &&& pending@.len() == 0
                    &&& !ended
                },
                Err(error) => error == TableError::Full && *final(self) == *old(self),
            },
            pushed is Err <==> old(self).is_full(),
    {
        self.push(Resource::Input { stream, pending: Vec::new(), ended: false })
    }

    /// Puts an output stream into the table.
    pub fn push_output_stream(&mut self, stream: O) -> (pushed: Result<u32, TableError>)
        ensures
            old(self).advances_to(final(self)),
            match pushed {
                Ok(handle) => {
                    &&& old(self).is_next_handle(handle)
                    &&& final(self)@ == old(self).with_resource(handle, Resource::Output(stream))
                },
                Err(error) => error == TableError::Full && *final(self) == *old(self),
            },
            pushed is Err <==> old(self).is_full(),
    {
        self.push(Resource::Output(stream))
    }

    /// Puts a readiness handle into the table.
    pub fn push_host_pollable(&mut self, pollable: HostPollable) -> (pushed: Result<
        u32,
        TableError,
    >)
        ensures
            old(self).advances_to(final(self)),
            match pushed {
                Ok(handle) => {
                    &&& old(self).is_next_handle(handle)
                    &&& final(self)@ == old(self).with_resource(
                        handle,
                        Resource::Pollable(pollable),
                    )
                },
                Err(error) => error == TableError::Full && *final(self) == *old(self),
            },
            pushed is Err <==> old(self).is_full(),
    {
        self.push(Resource::Pollable(pollable))
    }

    /// The generation of the slot of `handle`.
    pub fn generation_of(&self, handle: u32) -> (generation: u64)
        ensures
            generation == self.generation(handle),
    {
        if (handle as usize) < self.slots.len() {
            self.slots[handle as usize].generation
        } else {
            0
        }
    }

    /// The resource that `handle` names, if it names one.
    pub fn find(&self, handle: u32) -> (found: Option<&Resource<I, O>>)
        ensures
            match self.resource(handle) {
                Some(resource) => found matches Some(held) && *held == resource,
                None => found is None,
            },
    {
        if (handle as usize) < self.slots.len() {
            self.slots[handle as usize].resource.as_ref()
        } else {
            None
        }
    }

    /// Looks up `handle` as a resource of `kind`, for reading.
    pub fn get(&self, handle: u32, kind: Kind) -> (found: Result<&Resource<I, O>, TableError>)
        ensures
            match self.lookup(handle, kind) {
                Ok(resource) => found matches Ok(held) && *held == resource,
                Err(error) => found == Err::<&Resource<I, O>, TableError>(error),
            },
    {
        match self.find(handle) {
            None => Err(TableError::NotPresent),
            Some(resource) => if resource.has_kind(kind) {
                Ok(resource)
            } else {
                Err(TableError::WrongType)
            },
        }
    }

    /// Looks up `handle` as an input stream, for use by one operation. What
    /// the operation does to the stream is what becomes of the table; all
    /// else stays as it is.
    pub fn get_input_stream_mut(&mut self, handle: u32) -> (found: Result<&mut I, TableError>)
        ensures
            old(self).advances_to(final(self)),
            final(self).same_except(old(self), handle),
            match old(self).lookup(handle, Kind::Input) {
                Ok(resource) => {
                    &&& found matches Ok(stream)
                    &&& resource matches Resource::Input { stream: held, pending, ended }
                    &&& *stream == held
                    &&& final(self).generation(handle) == old(self).generation(handle)
                    &&& final(self).resource(handle) == Some(
                        Resource::<I, O>::Input { stream: *final(stream), pending, ended },
                    )
                },
                Err(error) => {
                    &&& found matches Err(e)
                    &&& e == error
                    &&& *final(self) == *old(self)
                },
            },
    {
        proof {
            use_type_invariant(&*self);
        }
        match self.get(handle, Kind::Input) {
            Ok(_) => {},
            Err(error) => {
                return Err(error);
            },
        }
        let slot = &mut self.slots[handle as usize];
        match &mut slot.resource {
            Some(Resource::Input { stream, .. }) => Ok(stream),
            _ => Err(TableError::WrongType),
        }
    }

    /// Looks up `handle` as an output stream, for use by one operation.
    pub fn get_output_stream_mut(&mut self, handle: u32) -> (found: Result<&mut O, TableError>)
        ensures
            old(self).advances_to(final(self)),
            final(self).same_except(old(self), handle),
            match old(self).lookup(handle, Kind::Output) {
                Ok(resource) => {
                    &&& found matches Ok(stream)
                    &&& resource matches Resource::Output(held)
                    &&& *stream == held
                    &&& final(self).generation(handle) == old(self).generation(handle)
                    &&& final(self).resource(handle) == Some(
                        Resource::<I, O>::Output(*final(stream)),
                    )
                },
                Err(error) => {
                    &&& found matches Err(e)
                    &&& e == error
                    &&& *final(self) == *old(self)
                },
            },
    {
        proof {
            use_type_invariant(&*self);
        }
        match self.get(handle, Kind::Output) {
            Ok(_) => {},
            Err(error) => {
                return Err(error);
            },
        }
        let slot = &mut self.slots[handle as usize];
        match &mut slot.resource {
            Some(Resource::Output(stream)) => Ok(stream),
            _ => Err(TableError::WrongType),
        }
    }

    /// Records that the backend of the input stream under `handle` has
    /// reported its end. Leaves the table as it is where `handle` names no
    /// input stream.
    pub fn end_input_stream(&mut self, handle: u32)
        ensures
            old(self).advances_to(final(self)),
            match old(self).lookup(handle, Kind::Input) {
                Ok(_) => final(self).input_changed_from(
                    old(self),
                    handle,
                    old(self).input_pending(handle),
                    true,
                ),
                Err(_) => *final(self) == *old(self),
            },
    {
        proof {
            use_type_invariant(&*self);
        }
        if self.get(handle, Kind::Input).is_err() {
            return ;
        }
        let slot = &mut self.slots[handle as usize];
        match &mut slot.resource {
            Some(Resource::Input { ended, .. }) => {
                *ended = true;
            },
            _ => {},
        }
    }

    /// A copy of the first `count` bytes that wait to be handed on from the
    /// input stream under `handle`, or of all that wait where they are
    /// fewer; of none where `handle` names no input stream.
    pub fn pending_front(&self, handle: u32, count: usize) -> (front: Vec<u8>)
        ensures
            front@ == self.input_pending(handle).take(
                if count < self.input_pending(handle).len() {
                    count as int
                } else {
                    self.input_pending(handle).len() as int
                },
            ),
    {
        let mut front: Vec<u8> = Vec::new();
        match self.find(handle) {
            Some(Resource::Input { pending, .. }) => {
                let mut index: usize = 0;
                while index < count && index < pending.len()
                    invariant
                        index <= count,
                        index <= pending@.len(),
                        front@ == pending@.take(index as int),
                    decreases pending@.len() - index,
                {
                    front.push(pending[index]);
                    index += 1;
                    assert(front@ =~= pending@.take(index as int));
                }
            },
            _ => {
                assert(front@ =~= self.input_pending(handle).take(0));
            },
        }
        front
    }

    /// Drops the first `count` bytes that wait to be handed on from the
    /// input stream under `handle`, or all that wait where they are fewer.
    /// Leaves the table as it is where `handle` names no input stream.
    pub fn drop_pending(&mut self, handle: u32, count: usize)
        ensures
            old(self).advances_to(final(self)),
            match old(self).lookup(handle, Kind::Input) {
                Ok(_) => final(self).input_changed_from(
                    old(self),
                    handle,
                    old(self).input_pending(handle).skip(
                        if count < old(self).input_pending(handle).len() {
                            count as int
                        } else {
                            old(self).input_pending(handle).len() as int
                        },
                    ),
                    old(self).input_ended(handle),
                ),
                Err(_) => *final(self) == *old(self),
            },
    {
        proof {
            use_type_invariant(&*self);
        }
        if self.get(handle, Kind::Input).is_err() {
            return ;
        }
        let slot = &mut self.slots[handle as usize];
        match &mut slot.resource {
            Some(Resource::Input { pending, .. }) => {
                let at = if count < pending.len() {
                    count
                } else {
                    pending.len()
                };
                let mut rest = pending.split_off(at);
                core::mem::swap(pending, &mut rest);
            },
            _ => {},
        }
    }

    /// Takes `bytes` as what waits to be handed on from the input stream
    /// under `handle`, and `ended` as whether its backend has reported its
    /// end. This is for what was just read from the backend: it is done
    /// only where nothing waits and no end was reported so far. Otherwise,
    /// and where `handle` names no input stream, the table stays as it is.
    pub fn hold_pending(&mut self, handle: u32, bytes: Vec<u8>, ended: bool)
        ensures
            old(self).advances_to(final(self)),
            match old(self).lookup(handle, Kind::Input) {
                Ok(_) => if old(self).input_pending(handle).len() == 0 && !old(self).input_ended(
                    handle,
                ) {
                    final(self).input_changed_from(old(self), handle, bytes@, ended)
                } else {
                    *final(self) == *old(self)
                },
                Err(_) => *final(self) == *old(self),
            },
    {
        proof {
            use_type_invariant(&*self);
        }
        let free = match self.get(handle, Kind::Input) {
            Ok(Resource::Input { pending, ended: reported, .. }) => pending.len() == 0
                && !*reported,
            _ => false,
        };
        if !free {
            return ;
        }
        let slot = &mut self.slots[handle as usize];
        match &mut slot.resource {
            Some(Resource::Input { pending, ended: reported, .. }) => {
                *pending = bytes;
                *reported = ended;
            },
            _ => {},
        }
    }

    /// Takes the resource under `handle` out of the table, where it is of
    /// `kind`. The handle then names nothing, until its slot is given to a
    /// new resource under a higher generation.
    pub fn delete(&mut self, handle: u32, kind: Kind) -> (deleted: Result<
        Resource<I, O>,
        TableError,
    >)
        ensures
            old(self).advances_to(final(self)),
            final(self).same_except(old(self), handle),
            match old(self).lookup(handle, kind) {
                Ok(resource) => {
                    &&& deleted == Ok::<Resource<I, O>, TableError>(resource)
                    &&& final(self)@ == old(self).without_resource(handle)
                    &&& final(self).retired(handle, old(self).generation(handle))
                },
                Err(error) => {
                    &&& deleted == Err::<Resource<I, O>, TableError>(error)
                    &&& *final(self) == *old(self)
                },
            },
    {
        proof {
            use_type_invariant(&*self);
        }
        match self.get(handle, kind) {
            Ok(_) => {},
            Err(error) => {
                return Err(error);
            },
        }
        let slot = &mut self.slots[handle as usize];
        match slot.resource.take() {
            Some(resource) => Ok(resource),
            None => Err(TableError::NotPresent),
        }
    }
}

/// A table can be itself at a later time.
pub proof fn lemma_advances_to_itself<I, O>(table: &Table<I, O>)
    ensures
        table.advances_to(table),
{
    assert forall|h: int| 0 <= h < table@.len() implies table@[h].persists_as(
        &#[trigger] table@[h],
    ) by {
        if table@[h].resource is Some {
            let resource = table@[h].resource->0;
            assert(resource.persists_as(&resource));
        }
    }
}

/// What a table can be later, and what that can be later still, the table
/// can be later: any run of operations advances the table it began with.
pub proof fn lemma_advances_in_steps<I, O>(
    first: &Table<I, O>,
    second: &Table<I, O>,
    third: &Table<I, O>,
)
    requires
        first.advances_to(second),
        second.advances_to(third),
    ensures
        first.advances_to(third),
{
    assert forall|h: int| 0 <= h < first@.len() implies first@[h].persists_as(
        &#[trigger] third@[h],
    ) by {
        assert(first@[h].persists_as(&second@[h]));
        assert(second@[h].persists_as(&third@[h]));
    }
}

/// End of stream is kept: an input stream that has nothing more to give,
/// and has not been deleted since, has nothing more to give at any later
/// time.
pub proof fn lemma_end_of_stream_is_kept<I, O>(
    before: &Table<I, O>,
    after: &Table<I, O>,
    stream: u32,
)
    requires
        before.input_at_end(stream),
        before.advances_to(after),
        after.live_at(stream, before.generation(stream)),
    ensures
        after.input_at_end(stream),
{
    assert(before@[stream as int].persists_as(&after@[stream as int]));
}

/// A deleted resource stays deleted: once the resource that a slot held at
/// some generation is gone, the handle never names it again, whatever is
/// put into the slot afterwards.
pub proof fn lemma_retired_stays_retired<I, O>(
    before: &Table<I, O>,
    after: &Table<I, O>,
    handle: u32,
    generation: u64,
)
    requires
        before.retired(handle, generation),
        before.advances_to(after),
    ensures
        after.retired(handle, generation),
{
    assert(before@[handle as int].persists_as(&after@[handle as int]));
}

/// A resource that is live is the one that was live under its handle and
/// generation at any earlier time when the slot had that generation and
/// something in it: a slot is not given away while it is in use.
pub proof fn lemma_live_resource_persists<I, O>(
    before: &Table<I, O>,
    after: &Table<I, O>,
    handle: u32,
)
    requires
        before.advances_to(after),
        handle < before@.len(),
        after.live_at(handle, before.generation(handle)),
    ensures
        before.resource(handle) is Some,
        before.resource(handle)->0.persists_as(&after.resource(handle)->0),
        before.resource(handle)->0.kind() == after.resource(handle)->0.kind(),
{
    assert(before@[handle as int].persists_as(&after@[handle as int]));
}

/// The next handle is one handle: two handles that both are the next are
/// the same.
pub proof fn lemma_next_handle_is_unique<I, O>(table: &Table<I, O>, one: u32, other: u32)
    requires
        table.is_next_handle(one),
        table.is_next_handle(other),
    ensures
        one == other,
{
    if one < other {
        assert(one < table@.len());
        assert(table@[one as int].reusable());
    } else if other < one {
        assert(other < table@.len());
        assert(table@[other as int].reusable());
    }
}

} // verus!
