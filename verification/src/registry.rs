//! The registry of heuristics: under which name and settings each one is
//! known, and the way from the engine's call to the heuristic and back.

use std::rc::Rc;
use vstd::prelude::*;
use crate::engine::Context;
use crate::heuristic::HeurResult;
use crate::heuristic::HeurTiming;
use crate::heuristic::Heuristic;
use crate::heuristic::is_heur_result_code;
use crate::heuristic::run_heuristic;
use crate::model::Model;
use crate::model::Solving;

verus! {

/// The name and settings under which a heuristic is registered.
pub struct HeurInfo {
    /// The name, by which the engine tells heuristics apart.
    pub name: Seq<char>,
    /// The points of the solving loop at which the heuristic may run.
    pub timing: HeurTiming,
    /// The priority among the heuristics.
    pub priority: i32,
    /// How often the heuristic is called, in levels of the tree.
    pub freq: i32,
    /// The character that the engine shows for a solution of the heuristic.
    pub dispchar: char,
}

/// Whether one of `infos` carries the name `name`.
pub open spec fn has_name(infos: Seq<HeurInfo>, name: Seq<char>) -> bool {
    exists|i: int| 0 <= i < infos.len() && (#[trigger] infos[i]).name == name
}

/// No name is empty, and no two of `infos` carry the same name.
pub open spec fn names_ok(infos: Seq<HeurInfo>) -> bool {
    &&& forall|i: int| 0 <= i < infos.len() ==> (#[trigger] infos[i]).name.len() > 0
    &&& forall|i: int, j: int|
        0 <= i < j < infos.len() ==> (#[trigger] infos[i]).name != (#[trigger] infos[j]).name
}

/// A heuristic with the settings that it is to be registered under.
pub struct HeurBuilder<H: Heuristic> {
    plugin: H,
    name: String,
    timing: HeurTiming,
    priority: i32,
    freq: i32,
    dispchar: char,
}

/// Starts the registration of `plugin`: no name yet, to run before each node,
/// with priority 0, at every level, shown as `?`.
pub fn heur<H: Heuristic>(plugin: H) -> (builder: HeurBuilder<H>)
    ensures
        builder.plugin() == plugin,
        builder.info().name == Seq::<char>::empty(),
        builder.info().timing@ == 0x001u64,
        builder.info().priority == 0,
        builder.info().freq == 1,
        builder.info().dispchar == '?',
{
    HeurBuilder {
        plugin,
        name: String::new(),
        timing: HeurTiming::before_node(),
        priority: 0,
        freq: 1,
        dispchar: '?',
    }
}

impl<H: Heuristic> HeurBuilder<H> {
    /// The heuristic that is to be registered.
    pub closed spec fn plugin(&self) -> H {
        self.plugin
    }

    /// The name and settings chosen so far.
    pub closed spec fn info(&self) -> HeurInfo {
        HeurInfo {
            name: self.name@,
            timing: self.timing,
            priority: self.priority,
            freq: self.freq,
            dispchar: self.dispchar,
        }
    }

    /// Sets the name.
    pub fn name(self, name: &str) -> (builder: HeurBuilder<H>)
        ensures
            builder.plugin() == self.plugin(),
            builder.info() == (HeurInfo { name: name@, ..self.info() }),
    {
        HeurBuilder {
            plugin: self.plugin,
            name: name.to_owned(),
            timing: self.timing,
            priority: self.priority,
            freq: self.freq,
            dispchar: self.dispchar,
        }
    }

    /// Sets the points of the solving loop at which the heuristic may run.
    pub fn timing(self, timing: HeurTiming) -> (builder: HeurBuilder<H>)
        ensures
            builder.plugin() == self.plugin(),
            builder.info() == (HeurInfo { timing, ..self.info() }),
    {
        HeurBuilder {
            plugin: self.plugin,
            name: self.name,
            timing,
            priority: self.priority,
            freq: self.freq,
            dispchar: self.dispchar,
        }
    }

    /// Sets the priority.
    pub fn priority(self, priority: i32) -> (builder: HeurBuilder<H>)
        ensures
            builder.plugin() == self.plugin(),
            builder.info() == (HeurInfo { priority, ..self.info() }),
    {
        HeurBuilder {
            plugin: self.plugin,
            name: self.name,
            timing: self.timing,
            priority,
            freq: self.freq,
            dispchar: self.dispchar,
        }
    }

    /// Sets how often the heuristic is called.
    pub fn freq(self, freq: i32) -> (builder: HeurBuilder<H>)
        ensures
            builder.plugin() == self.plugin(),
            builder.info() == (HeurInfo { freq, ..self.info() }),
    {
        HeurBuilder {
            plugin: self.plugin,
            name: self.name,
            timing: self.timing,
            priority: self.priority,
            freq,
            dispchar: self.dispchar,
        }
    }

    /// Sets the character shown for a solution of the heuristic.
    pub fn dispchar(self, dispchar: char) -> (builder: HeurBuilder<H>)
        ensures
            builder.plugin() == self.plugin(),
            builder.info() == (HeurInfo { dispchar, ..self.info() }),
    {
        HeurBuilder {
            plugin: self.plugin,
            name: self.name,
            timing: self.timing,
            priority: self.priority,
            freq: self.freq,
            dispchar,
        }
    }
}

/// Why a heuristic was not registered.
#[derive(Debug, Clone, Copy, PartialEq, Eq, Structural)]
pub enum RegistrationError {
    /// The heuristic has no name, or an empty one.
    EmptyName,
    /// Another heuristic is registered under the same name.
    DuplicateName,
}

/// The heuristics that are registered, in the order of their registration.
/// The place of a heuristic in that order is its id.
pub struct Registry<H: Heuristic> {
    entries: Vec<HeurBuilder<H>>,
}

impl<H: Heuristic> View for Registry<H> {
    type V = Seq<HeurInfo>;

    closed spec fn view(&self) -> Seq<HeurInfo> {
        self.entries@.map_values(|e: HeurBuilder<H>| e.info())
    }
}

impl<H: Heuristic> Registry<H> {
    /// The registered heuristics themselves, each at its id.
    pub closed spec fn plugins(&self) -> Seq<H> {
        self.entries@.map_values(|e: HeurBuilder<H>| e.plugin())
    }

    /// The heuristic registered under `id`.
    pub open spec fn plugin(&self, id: int) -> H {
        self.plugins()[id]
    }

    /// No registered name is empty, and no two heuristics share a name. It
    /// holds of a new registry, and every method keeps it.
    pub open spec fn wf(&self) -> bool {
        names_ok(self@)
    }

    /// A registry without heuristics.
    pub fn new() -> (registry: Registry<H>)
        ensures
            registry.wf(),
            registry@ == Seq::<HeurInfo>::empty(),
            registry.plugins() == Seq::<H>::empty(),
    {
        let registry = Registry { entries: Vec::new() };
        assert(registry@ =~= Seq::<HeurInfo>::empty());
        assert(registry.plugins() =~= Seq::<H>::empty());
        registry
    }

    /// The number of registered heuristics.
    pub fn len(&self) -> (n: usize)
        ensures
            n == self@.len(),
            n == self.plugins().len(),
    {
        self.entries.len()
    }

    /// The id of the heuristic registered under `name`, if there is one.
    pub fn find(&self, name: &str) -> (id: Option<usize>)
        ensures
            id.is_some() <==> has_name(self@, name@),
            id matches Some(i) ==> i < self@.len() && self@[i as int].name == name@,
    {
        let wanted: String = name.to_owned();
        let mut i: usize = 0;
        while i < self.entries.len()
            invariant
                i <= self.entries@.len(),
                wanted@ == name@,
                forall|k: int| 0 <= k < i ==> (#[trigger] self@[k]).name != name@,
            decreases self.entries@.len() - i,
        {
            assert(self@[i as int].name == self.entries@[i as int].name@);
            if self.entries[i].name == wanted {
                return Some(i);
            }
            i += 1;
        }
        None
    }

    /// Registers the heuristic under its name and settings, and gives its
    /// id: the registry then holds the heuristic itself under that id, after
    /// those it held before. A heuristic without a name, or with the name
    /// of a registered one, is not registered, and the registry stays as it
    /// was.
    pub fn register(&mut self, builder: HeurBuilder<H>) -> (id: Result<usize, RegistrationError>)
        requires
            old(self).wf(),
        ensures
            final(self).wf(),
            match id {
                Ok(i) => {
                    &&& builder.info().name.len() > 0
                    &&& !has_name(old(self)@, builder.info().name)
                    &&& i == old(self)@.len()
                    &&& final(self)@ == old(self)@.push(builder.info())
                    &&& final(self).plugins() == old(self).plugins().push(builder.plugin())
                },
                Err(RegistrationError::EmptyName) => {
                    &&& builder.info().name.len() == 0
                    &&& final(self)@ == old(self)@
                    &&& final(self).plugins() == old(self).plugins()
                },
                Err(RegistrationError::DuplicateName) => {
                    &&& builder.info().name.len() > 0
                    &&& has_name(old(self)@, builder.info().name)
                    &&& final(self)@ == old(self)@
                    &&& final(self).plugins() == old(self).plugins()
                },
            },
    {
        if builder.name.as_str().is_empty() {
            return Err(RegistrationError::EmptyName);
        }
        if self.find(builder.name.as_str()).is_some() {
            return Err(RegistrationError::DuplicateName);
        }
        let id: usize = self.entries.len();
        let ghost before = self@;
        let ghost plugins = self.plugins();
        let ghost info = builder.info();
        let ghost plugin = builder.plugin();
        self.entries.push(builder);
        assert(self@ =~= before.push(info));
        assert(self.plugins() =~= plugins.push(plugin));
        Ok(id)
    }

    /// The points of the solving loop at which the heuristic `id` may run.
    pub fn timing(&self, id: usize) -> (timing: Option<HeurTiming>)
        ensures
            timing == (if id < self@.len() {
                Some(self@[id as int].timing)
            } else {
                None
            }),
    {
        if id < self.entries.len() {
            Some(self.entries[id].timing)
        } else {
            None
        }
    }

    /// The name under which the heuristic `id` is registered.
    pub fn name(&self, id: usize) -> (name: Option<String>)
        ensures
            name.is_some() <==> id < self@.len(),
            name matches Some(n) ==> n@ == self@[id as int].name,
    {
        if id < self.entries.len() {
            Some(self.entries[id].name.clone())
        } else {
            None
        }
    }

    /// The priority of the heuristic `id`.
    pub fn priority(&self, id: usize) -> (priority: Option<i32>)
        ensures
            priority == (if id < self@.len() {
                Some(self@[id as int].priority)
            } else {
                None
            }),
    {
        if id < self.entries.len() {
            Some(self.entries[id].priority)
        } else {
            None
        }
    }

    /// How often the heuristic `id` is called.
    pub fn freq(&self, id: usize) -> (freq: Option<i32>)
        ensures
            freq == (if id < self@.len() {
                Some(self@[id as int].freq)
            } else {
                None
            }),
    {
        if id < self.entries.len() {
            Some(self.entries[id].freq)
        } else {
            None
        }
    }

    /// The character shown for a solution of the heuristic `id`.
    pub fn dispchar(&self, id: usize) -> (dispchar: Option<char>)
        ensures
            dispchar == (if id < self@.len() {
                Some(self@[id as int].dispchar)
            } else {
                None
            }),
    {
        if id < self.entries.len() {
            Some(self.entries[id].dispchar)
        } else {
            None
        }
    }

    /// Answers one call of the engine for the heuristic `id`: runs that
    /// heuristic once, as `run_heuristic` does, and gives the engine the code
    /// of what it reports; none, and nothing run, if no heuristic has that
    /// id.
    ///
    /// The contract speaks of that one run: a call of `execute` on the
    /// heuristic as the registry held it under `id`, which leaves it as the
    /// registry holds it afterwards, with a session on the engine's context
    /// in the solving phase, the timing as a mask and the infeasibility flag
    /// as a truth value. The other heuristics, and all names and settings,
    /// stay as they were.
    pub fn run(
        &mut self,
        id: usize,
        scip: &Rc<Context>,
        timing: u32,
        node_inf: u32,
    ) -> (code: Option<u32>)
        ensures
            code.is_some() <==> id < old(self)@.len(),
            code matches Some(c) ==> exists|
                call: &mut H,
                model: Model<Solving>,
                mask: HeurTiming,
                flag: bool,
                result: HeurResult,
            |
                {
                    &&& #[trigger] call_ensures(H::execute, (call, model, mask, flag), result)
                    &&& *call == old(self).plugin(id as int)
                    &&& *final(call) == final(self).plugin(id as int)
                    &&& model.context() == **scip
                    &&& mask@ == timing
                    &&& flag == (node_inf != 0)
                    &&& c == result.code()
                },
            code matches Some(c) ==> is_heur_result_code(c),
            final(self)@ == old(self)@,
            final(self).plugins().len() == old(self).plugins().len(),
            forall|j: int|
                #![trigger final(self).plugin(j)]
                #![trigger old(self).plugin(j)]
                0 <= j < old(self)@.len() && j != id ==> final(self).plugin(j) == old(self).plugin(j),
            code.is_none() ==> final(self).plugins() == old(self).plugins(),
    {
        if id < self.entries.len() {
            let ghost before = self@;
            let ghost plugins = self.plugins();
            let code = run_heuristic(&mut self.entries[id].plugin, scip, timing, node_inf);
            assert(self@ =~= before);
            assert(self.plugins().len() == plugins.len());
            assert(forall|j: int|
                0 <= j < plugins.len() && j != id ==> #[trigger] self.plugins()[j] == plugins[j]);
            Some(code)
        } else {
            None
        }
    }

    /// Takes back the heuristic that was registered last, with its name and
    /// settings; none, and nothing changed, if none is registered. The
    /// others keep their ids.
    pub fn pop(&mut self) -> (last: Option<HeurBuilder<H>>)
        requires
            old(self).wf(),
        ensures
            final(self).wf(),
            last.is_some() <==> old(self)@.len() > 0,
            last.is_none() ==> {
                &&& final(self)@ == old(self)@
                &&& final(self).plugins() == old(self).plugins()
            },
            last matches Some(builder) ==> {
                &&& builder.info() == old(self)@.last()
                &&& builder.plugin() == old(self).plugins().last()
                &&& final(self)@ == old(self)@.drop_last()
                &&& final(self).plugins() == old(self).plugins().drop_last()
            },
    {
        let ghost before = self@;
        let ghost plugins = self.plugins();
        let last = self.entries.pop();
        assert(last.is_some() ==> self@ =~= before.drop_last());
        assert(last.is_some() ==> self.plugins() =~= plugins.drop_last());
        assert(last.is_none() ==> self@ =~= before);
        assert(last.is_none() ==> self.plugins() =~= plugins);
        last
    }
}

} // verus!
