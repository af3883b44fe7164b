//! The method registry: maps a method name to a registered handler.
//!
//! Built once at startup and then read for every dispatched call.
//! Re-registering a name overwrites its handler — the last registration
//! wins — so at most one handler is ever held per method name. A missing
//! name is not an error here; the dispatcher surfaces it.

use crate::handlers::HandlerKind;
use crate::table::KeyTable;
use vstd::prelude::*;

verus! {

/// Maps each registered method name to its handler.
pub struct MethodRegistry {
    table: KeyTable<HandlerKind>,
}

impl View for MethodRegistry {
    type V = Map<Seq<char>, HandlerKind>;

    closed spec fn view(&self) -> Map<Seq<char>, HandlerKind> {
        self.table@
    }
}

impl MethodRegistry {
    /// The registry's invariant: a well-formed table whose method names
    /// are all non-empty.
    pub closed spec fn wf(&self) -> bool {
        &&& self.table.wf()
        &&& forall|k: Seq<char>| #[trigger] self@.contains_key(k) ==> k.len() > 0
    }

    /// An empty registry.
    pub fn new() -> (r: Self)
        ensures
            r.wf(),
            r@ == Map::<Seq<char>, HandlerKind>::empty(),
    {
        MethodRegistry { table: KeyTable::new() }
    }

    /// Registers `handler` under `name`, overwriting any earlier
    /// registration of the same name.
    pub fn register(&mut self, name: String, handler: HandlerKind)
        requires
            old(self).wf(),
            name@.len() > 0,
        ensures
            final(self).wf(),
            final(self)@ == old(self)@.insert(name@, handler),
    {
        self.table.set(name, handler);
        proof {
            assert forall|k: Seq<char>| #[trigger] self@.contains_key(k) implies k.len() > 0 by {
                if k != name@ {
                    assert(old(self)@.contains_key(k));
                }
            }
        }
    }

    /// Looks the handler registered under `name` up.
    pub fn lookup(&self, name: &String) -> (r: Option<HandlerKind>)
        requires
            self.wf(),
        ensures
            match r {
                Some(h) => self@.contains_key(name@) && self@[name@] == h,
                None => !self@.contains_key(name@),
            },
    {
        self.table.get(name)
    }
}

} // verus!
