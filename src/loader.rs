use vstd::prelude::*;
use crate::plugin::{Plugin, LoadError, Entry, VERSION, is_host_version};

verus! {

/// The verdict on what a module's entry point handed back: its table must
/// carry the host's version tag, and then it must have produced a context.
pub open spec fn admission(version: Seq<char>, has_context: bool) -> Result<(), LoadError> {
    if version != VERSION@ {
        Err(LoadError::VersionMismatch)
    } else if !has_context {
        Err(LoadError::NullContext)
    } else {
        Ok(())
    }
}

/// The verdict on an attempt to load a module: a failure to open it, or the
/// verdict on what its entry point handed back.
pub open spec fn load_verdict<C>(opened: Result<Entry<C>, LoadError>) -> Result<(), LoadError> {
    match opened {
        Err(e) => Err(e),
        Ok(entry) => admission(entry.version@, entry.context is Some),
    }
}

/// The plugins that the host has admitted, in the order they were loaded.
pub struct Loader<P> {
    plugins: Vec<P>,
}

impl<P> View for Loader<P> {
    type V = Seq<P>;

    closed spec fn view(&self) -> Seq<P> {
        self.plugins@
    }
}

impl<P: Plugin> Loader<P> {
    /// A loader that holds no plugin.
    pub fn new() -> (r: Self)
        ensures
            r@ == Seq::<P>::empty(),
    {
        Loader { plugins: Vec::new() }
    }

    /// Admits the module that `opened` describes: where its entry point
    /// handed back a context under the host's version tag, `wrap` turns that
    /// context into a plugin, which is appended. Otherwise the loader is left
    /// as it was, and the error says why.
    pub fn load<C, F: FnOnce(C) -> P>(&mut self, opened: Result<Entry<C>, LoadError>, wrap: F) -> (r: Result<(), LoadError>)
        requires
            forall|c: C| #[trigger] wrap.requires((c,)),
        ensures
            r == load_verdict(opened),
            final(self)@ == after_load(old(self)@, if r is Ok { Some(final(self)@.last()) } else { None }),
            r is Ok ==> final(self)@.len() == old(self)@.len() + 1,
            r is Ok ==> wrap.ensures((opened->Ok_0.context->Some_0,), final(self)@.last()),
            opened is Ok && opened->Ok_0.version@ != VERSION@ ==> {
                &&& r == Err::<(), LoadError>(LoadError::VersionMismatch)
                &&& final(self)@ == old(self)@
            },
    {
        let entry = match opened {
            Err(e) => return Err(e),
            Ok(entry) => entry,
        };
        if !is_host_version(&entry.version) {
            return Err(LoadError::VersionMismatch);
        }
        let context = match entry.context {
            None => return Err(LoadError::NullContext),
            Some(c) => c,
        };
        let plugin = wrap(context);
        self.plugins.push(plugin);
        proof {
            assert(self.plugins@ =~= old(self).plugins@.push(self.plugins@.last()));
        }
        Ok(())
    }

    /// The admitted plugins, in load order.
    pub fn plugins(&self) -> (r: &[P])
        ensures
            r@ == self@,
    {
        self.plugins.as_slice()
    }
}

/// The loader's plugins after one load whose outcome was `outcome`: the
/// plugin it admitted is appended, and a failed load changes nothing.
pub open spec fn after_load<P>(before: Seq<P>, outcome: Option<P>) -> Seq<P> {
    match outcome {
        Some(p) => before.push(p),
        None => before,
    }
}

/// The plugins admitted by a run of loads, in order, skipping failed loads.
pub open spec fn admitted<P>(outcomes: Seq<Option<P>>) -> Seq<P>
    decreases outcomes.len(),
{
    if outcomes.len() == 0 {
        Seq::empty()
    } else {
        let last = outcomes.len() - 1;
        match outcomes[last] {
            Some(p) => admitted(outcomes.take(last)).push(p),
            None => admitted(outcomes.take(last)),
        }
    }
}

/// Load order is kept: after a run of loads, the loader holds what it held
/// before, followed by every admitted plugin in the order of its load, and a
/// failed load takes no place in that order.
pub proof fn lemma_load_order<P>(states: Seq<Seq<P>>, outcomes: Seq<Option<P>>)
    requires
        states.len() == outcomes.len() + 1,
        forall|i: int| 0 <= i < outcomes.len() ==> #[trigger] states[i + 1] == after_load(states[i], outcomes[i]),
    ensures
        states.last() == states[0] + admitted(outcomes),
    decreases outcomes.len(),
{
    if outcomes.len() == 0 {
        assert(states[0] + admitted(outcomes) =~= states[0]);
    } else {
        let n = outcomes.len() - 1;
        let prefix = outcomes.take(n);
        let earlier = states.take(n + 1);
        assert forall|i: int| 0 <= i < prefix.len() implies #[trigger] earlier[i + 1] == after_load(earlier[i], prefix[i]) by {
            assert(states[i + 1] == after_load(states[i], outcomes[i]));
        }
        lemma_load_order(earlier, prefix);
        assert(states[n + 1] == after_load(states[n], outcomes[n]));
        match outcomes[n] {
            Some(p) => {
                assert(states[0] + admitted(prefix).push(p) =~= (states[0] + admitted(prefix)).push(p));
            },
            None => {},
        }
    }
}

} // verus!
