//! The registry of loaded plugins.
use crate::loader::{LoadError, LoadedPlugin};
use crate::message::MessageType;
use crate::plugin::{all_tagged, retag_commands, shows, tag_view, PluginLoader};
use iced_core::Element;
use iced_runtime::Command;
use std::collections::HashMap;
use std::marker::PhantomData;
use vstd::prelude::*;
use vstd::std_specs::iter::IteratorSpec;

verus! {

/// Whether exactly one entry of `info` is for `id`.
pub open spec fn listed_once(info: Seq<(u16, String)>, id: u16) -> bool {
    exists|at: int|
        {
            &&& 0 <= at < info.len()
            &&& #[trigger] info[at].0 == id
            &&& forall|other: int| 0 <= other < info.len() && #[trigger] info[other].0 == id ==> other == at
        }
}

/// The identifiers of a listing, in its order.
pub open spec fn listed_ids(info: Seq<(u16, String)>) -> Seq<u16> {
    info.map_values(|entry: (u16, String)| entry.0)
}

/// Whether `ids` holds exactly the members of `present`, each once.
pub open spec fn lists(ids: Seq<u16>, present: Set<u16>) -> bool {
    ids.no_duplicates() && ids.to_set() == present
}

/// The loaded plugins of a host whose message type is `T`, each under an
/// identifier of its own.
///
/// As a model, a handler is the map [`PluginHandler::view`] from identifiers to
/// loaded plugins, together with [`PluginHandler::counter`], below which no
/// identifier is ever handed out by the handler itself.
#[verifier::reject_recursive_types(T)]
#[verifier::reject_recursive_types(Theme)]
#[verifier::reject_recursive_types(Renderer)]
pub struct PluginHandler<
    T: 'static + PluginLoader,
    Theme = iced_widget::Theme,
    Renderer = iced_widget::Renderer,
> {
    plugins: HashMap<u16, LoadedPlugin<Theme, Renderer>>,
    message: PhantomData<T>,
    counter: u32,
}

impl<T: 'static + PluginLoader, Theme, Renderer> PluginHandler<T, Theme, Renderer> {
    /// The loaded plugins, by identifier.
    pub closed spec fn view(&self) -> Map<u16, LoadedPlugin<Theme, Renderer>> {
        self.plugins@
    }

    /// Where the search for an unused identifier starts. It never decreases.
    pub closed spec fn counter(&self) -> nat {
        self.counter as nat
    }

    /// Whether `id` is the least identifier at or above the counter that no
    /// loaded plugin has.
    pub open spec fn is_fresh(&self, id: u16) -> bool {
        &&& self.counter() <= id
        &&& !self@.contains_key(id)
        &&& forall|taken: u16| self.counter() <= taken < id ==> self@.contains_key(taken)
    }

    /// The identifier that the next plugin gets when the caller names none, if
    /// there is one left.
    pub open spec fn fresh(&self) -> Option<u16> {
        if exists|id: u16| self.is_fresh(id) {
            Some(choose|id: u16| self.is_fresh(id))
        } else {
            None
        }
    }

    /// The identifier under which a load that asks for `id` stores its plugin;
    /// `None` where `id` is taken or no identifier is left.
    pub open spec fn slot(&self, id: Option<u16>) -> Option<u16> {
        match id {
            Some(wanted) => if self@.contains_key(wanted) {
                None
            } else {
                Some(wanted)
            },
            None => self.fresh(),
        }
    }

    /// What a load that asks for `id` gets for an answer before anything is
    /// loaded: the identifier under which its plugin will be stored, or the
    /// reason why there is none.
    pub open spec fn answer(&self, id: Option<u16>) -> Result<u16, LoadError> {
        match self.slot(id) {
            Some(chosen) => Ok(chosen),
            None => if id is Some {
                Err(LoadError::DuplicateId)
            } else {
                Err(LoadError::NoIdentifierLeft)
            },
        }
    }

    /// At most one identifier is fresh.
    pub proof fn fresh_is_unique(&self, a: u16, b: u16)
        requires
            self.is_fresh(a),
            self.is_fresh(b),
        ensures
            a == b,
    {
        if a < b {
            assert(self@.contains_key(a));
        }
        if b < a {
            assert(self@.contains_key(b));
        }
    }

    /// A handler without plugins.
    pub fn new() -> (handler: Self)
        ensures
            handler@ == Map::<u16, LoadedPlugin<Theme, Renderer>>::empty(),
            handler.counter() == 0,
            handler.fresh() == Some(0u16),
    {
        let handler = PluginHandler { plugins: HashMap::new(), message: PhantomData, counter: 0 };
        assert(handler.is_fresh(0));
        proof {
            let found = choose|id: u16| handler.is_fresh(id);
            handler.fresh_is_unique(found, 0);
        }
        handler
    }

    /// Whether a plugin is loaded under `id`.
    pub fn contains(&self, id: u16) -> (present: bool)
        ensures
            present == self@.contains_key(id),
    {
        self.plugins.contains_key(&id)
    }

    /// The number of loaded plugins.
    pub fn len(&self) -> (count: usize)
        ensures
            count == self@.len(),
    {
        self.plugins.len()
    }

    /// The identifier that the next plugin gets when the caller names none:
    /// the least one at or above the counter that is not taken. `None` when
    /// every identifier from the counter on is taken.
    pub fn next_id(&self) -> (id: Option<u16>)
        ensures
            id == self.fresh(),
    {
        if self.counter > 0xFFFF {
            return None;
        }
        let mut candidate: u32 = self.counter;
        while candidate <= 0xFFFF
            invariant
                self.counter <= candidate <= 0x1_0000,
                forall|taken: u16|
                    self.counter() <= taken < candidate ==> self@.contains_key(taken),
            decreases 0x1_0000 - candidate,
        {
            let id: u16 = candidate as u16;
            if !self.plugins.contains_key(&id) {
                proof {
                    assert(self.is_fresh(id));
                    let found = choose|other: u16| self.is_fresh(other);
                    self.fresh_is_unique(found, id);
                }
                return Some(id);
            }
            candidate = candidate + 1;
        }
        proof {
            assert forall|id: u16| !self.is_fresh(id) by {
                if self.counter() <= id {
                    assert(self@.contains_key(id));
                }
            }
        }
        None
    }

    /// The identifier under which a load that asks for `id` would store its
    /// plugin, or the reason why it would be refused. With this the host knows,
    /// before it opens a library, whether there is a place for its plugin.
    pub fn reserve(&self, id: Option<u16>) -> (answer: Result<u16, LoadError>)
        ensures
            answer == self.answer(id),
    {
        match id {
            Some(wanted) => if self.plugins.contains_key(&wanted) {
                Err(LoadError::DuplicateId)
            } else {
                Ok(wanted)
            },
            None => match self.next_id() {
                Some(chosen) => Ok(chosen),
                None => Err(LoadError::NoIdentifierLeft),
            },
        }
    }

    /// Adds what the module loader produced.
    ///
    /// `id` is the identifier that the caller wants, or `None` for the next
    /// unused one. `loaded` is the loader's result for the plugin's library.
    ///
    /// - Where there is no place for the plugin, because `id` is taken or
    ///   because no identifier is left to choose, the result says so, whatever
    ///   the loader produced.
    /// - Otherwise, where the loader failed, the result is the loader's error.
    /// - Otherwise the plugin is stored under [`PluginHandler::slot`] of `id`,
    ///   which is returned. An identifier that the handler chose moves the
    ///   counter past it.
    ///
    /// On an error the handler is left as it was, and a plugin that came with
    /// it is dropped, instance first.
    pub fn load(
        &mut self,
        id: Option<u16>,
        loaded: Result<LoadedPlugin<Theme, Renderer>, LoadError>,
    ) -> (stored: Result<u16, LoadError>)
        ensures
            match (old(self).answer(id), loaded) {
                (Err(refusal), _) => {
                    &&& stored == Err::<u16, LoadError>(refusal)
                    &&& final(self)@ == old(self)@
                    &&& final(self).counter() == old(self).counter()
                },
                (Ok(_), Err(error)) => {
                    &&& stored == Err::<u16, LoadError>(error)
                    &&& final(self)@ == old(self)@
                    &&& final(self).counter() == old(self).counter()
                },
                (Ok(chosen), Ok(plugin)) => {
                    &&& stored == Ok::<u16, LoadError>(chosen)
                    &&& final(self)@ == old(self)@.insert(chosen, plugin)
                    &&& final(self).counter() == if id is None {
                        chosen + 1
                    } else {
                        old(self).counter() as int
                    }
                },
            },
            final(self).counter() >= old(self).counter(),
    {
        match self.reserve(id) {
            Err(refusal) => Err(refusal),
            Ok(chosen) => match loaded {
                Err(error) => Err(error),
                Ok(plugin) => {
                    self.plugins.insert(chosen, plugin);
                    if id.is_none() {
                        self.counter = chosen as u32 + 1;
                    }
                    Ok(chosen)
                },
            },
        }
    }

    /// Removes the plugin under `id`, if there is one: drops its instance, then
    /// unloads its library. Without such a plugin nothing happens.
    pub fn unload(&mut self, id: u16)
        ensures
            final(self)@ == old(self)@.remove(id),
            final(self).counter() == old(self).counter(),
            !old(self)@.contains_key(id) ==> final(self)@ == old(self)@,
    {
        match self.plugins.remove(&id) {
            Some(plugin) => {
                let _ = plugin.release();
            },
            None => {},
        }
    }

    /// Hands `message` to the plugin under `id` and returns what it asks for
    /// next, every command tagged with `id`.
    ///
    /// A message for an identifier without a plugin is not an error: it is
    /// dropped, no command comes back, and the handler is left as it was.
    /// Otherwise the plugin under `id` is what `message` made of it, still
    /// bound to the same library, every other plugin is untouched, and what
    /// comes back is what the plugin asked for, command by command, each
    /// tagged with `id`.
    pub fn plugin_update(&mut self, id: u16, message: MessageType) -> (commands: Vec<Command<T>>)
        ensures
            !old(self)@.contains_key(id) ==> commands@.len() == 0 && final(self)@ == old(self)@,
            old(self)@.contains_key(id) ==> exists|asked: Seq<Command<MessageType>>|
                old(self)@[id].answers(message, final(self)@[id], asked) && all_tagged(
                    id,
                    asked,
                    commands@,
                ),
            old(self)@.contains_key(id) ==> final(self)@[id].library() == old(self)@[id].library(),
            final(self)@.dom() == old(self)@.dom(),
            forall|other: u16|
                other != id && old(self)@.contains_key(other) ==> final(self)@[other] == old(
                    self,
                )@[other],
            final(self).counter() == old(self).counter(),
    {
        match self.plugins.remove(&id) {
            Some(plugin) => {
                let (plugin, asked) = plugin.ask(message);
                let ghost answer = asked@;
                self.plugins.insert(id, plugin);
                let commands = retag_commands::<T>(id, asked);
                assert(old(self)@[id].answers(message, self@[id], answer) && all_tagged(
                    id,
                    answer,
                    commands@,
                ));
                commands
            },
            None => Vec::new(),
        }
    }

    /// What the plugin under `id` displays, every message in it tagged with
    /// `id`; `None` exactly where no plugin is loaded under `id`.
    pub fn plugin_view(&self, id: u16) -> (shown: Option<Element<'_, T, Theme, Renderer>>) where
        Theme: 'static,
        Renderer: 'static + iced_core::Renderer,

        ensures
            shown is Some <==> self@.contains_key(id),
            self@.contains_key(id) ==> exists|view: Element<'_, MessageType, Theme, Renderer>|
                self@[id].displays(view) && shows::<T, Theme, Renderer>(id, view, shown->0),
    {
        match self.plugins.get(&id) {
            Some(plugin) => {
                let view = plugin.ask_view();
                let ghost displayed = view;
                let shown = Some(tag_view::<T, Theme, Renderer>(id, view));
                assert(self@[id].displays(displayed) && shows::<T, Theme, Renderer>(
                    id,
                    displayed,
                    shown->0,
                ));
                shown
            },
            None => None,
        }
    }

    /// The identifiers of the loaded plugins, each once, in the order in which
    /// the underlying table walks them.
    pub fn ids(&self) -> (ids: Vec<u16>)
        ensures
            lists(ids@, self@.dom()),
    {
        let mut ids: Vec<u16> = Vec::new();
        for id in walk: self.plugins.keys()
            invariant
                ids@.len() == walk.index(),
                forall|i: int| 0 <= i < ids@.len() ==> ids@[i] == *walk.seq()[i],
        {
            ids.push(*id);
        }
        proof {
            broadcast use vstd::std_specs::hash::group_hash_axioms;

            let walked = self.plugins.keys().remaining();
            assert(ids@ =~= walked.unref());
        }
        ids
    }

    /// The loaded plugins, each with its identifier and the name that it gives
    /// for itself. Every loaded plugin is listed once; the order is that of
    /// [`PluginHandler::ids`].
    pub fn plugin_info(&self) -> (info: Vec<(u16, String)>)
        ensures
            lists(listed_ids(info@), self@.dom()),
            info@.len() == self@.len(),
            forall|i: int|
                0 <= i < info@.len() ==> self@[(#[trigger] info@[i]).0].named(info@[i].1),
    {
        let ids = self.ids();
        let mut info: Vec<(u16, String)> = Vec::new();
        let mut next: usize = 0;
        while next < ids.len()
            invariant
                next <= ids@.len(),
                lists(ids@, self@.dom()),
                info@.len() == next,
                forall|i: int| 0 <= i < next ==> info@[i].0 == ids@[i],
                forall|i: int|
                    0 <= i < next ==> self@[(#[trigger] info@[i]).0].named(info@[i].1),
            decreases ids@.len() - next,
        {
            let id = ids[next];
            match self.plugins.get(&id) {
                Some(plugin) => info.push((id, plugin.ask_name())),
                None => {},
            }
            next = next + 1;
        }
        proof {
            assert(listed_ids(info@) =~= ids@);
            ids@.unique_seq_to_set();
        }
        info
    }

    /// Unloads every plugin: for each, drops its instance and then unloads its
    /// library. A library that the platform refuses to unload does not keep
    /// the others from being unloaded; the identifiers of those that were
    /// refused are returned.
    pub fn drop_libs(&mut self) -> (refused: Vec<u16>)
        ensures
            final(self)@ == Map::<u16, LoadedPlugin<Theme, Renderer>>::empty(),
            final(self).counter() == old(self).counter(),
            refused@.no_duplicates(),
            forall|i: int| 0 <= i < refused@.len() ==> old(self)@.contains_key(refused@[i]),
            forall|id: u16|
                old(self)@.contains_key(id) ==> (#[trigger] old(self)@[id]).closes(
                    !refused@.contains(id),
                ),
    {
        let ids = self.ids();
        let ghost before = self@;
        let mut refused: Vec<u16> = Vec::new();
        let mut next: usize = 0;
        while next < ids.len()
            invariant
                next <= ids@.len(),
                lists(ids@, before.dom()),
                self.counter() == old(self).counter(),
                self@.dom().subset_of(before.dom()),
                forall|id: u16| self@.contains_key(id) ==> self@[id] == before[id],
                forall|i: int| 0 <= i < next ==> !self@.contains_key(ids@[i]),
                forall|i: int| next <= i < ids@.len() ==> self@.contains_key(ids@[i]),
                forall|i: int|
                    0 <= i < refused@.len() ==> exists|j: int|
                        0 <= j < next && ids@[j] == #[trigger] refused@[i],
                refused@.no_duplicates(),
                forall|i: int|
                    0 <= i < next ==> (#[trigger] before[ids@[i]]).closes(
                        !refused@.contains(ids@[i]),
                    ),
            decreases ids@.len() - next,
        {
            let id = ids[next];
            let ghost earlier = refused@;
            match self.plugins.remove(&id) {
                Some(plugin) => {
                    if !plugin.release() {
                        refused.push(id);
                        assert(refused@.last() == id);
                    }
                },
                None => {},
            }
            proof {
                assert(!earlier.contains(id));
                assert forall|i: int| 0 <= i <= next implies (#[trigger] before[ids@[i]]).closes(
                    !refused@.contains(ids@[i]),
                ) by {
                    if i < next {
                        assert(ids@[i] != id);
                        if earlier.contains(ids@[i]) {
                            let at = choose|at: int|
                                0 <= at < earlier.len() && earlier[at] == ids@[i];
                            assert(refused@[at] == ids@[i]);
                        }
                        assert(refused@.contains(ids@[i]) == earlier.contains(ids@[i]));
                    }
                }
            }
            next = next + 1;
        }
        proof {
            assert forall|id: u16| !self@.contains_key(id) by {
                if self@.contains_key(id) {
                    assert(ids@.to_set().contains(id));
                }
            }
            assert forall|id: u16| before.contains_key(id) implies (#[trigger] before[id]).closes(
                !refused@.contains(id),
            ) by {
                assert(ids@.to_set().contains(id));
                let at = choose|at: int| 0 <= at < ids@.len() && ids@[at] == id;
                assert(before[ids@[at]].closes(!refused@.contains(ids@[at])));
            }
        }
        refused
    }

    /// A handler has finitely many plugins, so that their number is the size of
    /// the set of their identifiers.
    pub proof fn plugins_are_finite(&self)
        ensures
            self@.dom().finite(),
    {
        broadcast use vstd::std_specs::hash::axiom_hashmap_view_finite_dom;

    }

    /// A plugin that was just stored is listed, listed once, and listed with
    /// the name that it gives for itself.
    ///
    /// `before` and `after` are the handler around a successful load of
    /// `plugin` under `stored`, and `info` is a listing of `after`.
    pub proof fn loaded_plugin_is_listed_once(
        before: Self,
        after: Self,
        stored: u16,
        plugin: LoadedPlugin<Theme, Renderer>,
        info: Seq<(u16, String)>,
    )
        requires
            after@ == before@.insert(stored, plugin),
            lists(listed_ids(info), after@.dom()),
            forall|i: int| 0 <= i < info.len() ==> after@[(#[trigger] info[i]).0].named(info[i].1),
        ensures
            listed_once(info, stored),
            forall|i: int|
                0 <= i < info.len() && (#[trigger] info[i]).0 == stored ==> plugin.named(info[i].1),
    {
        let ids = listed_ids(info);
        assert(ids.to_set().contains(stored));
        let at = choose|i: int| 0 <= i < ids.len() && ids[i] == stored;
        assert forall|j: int| 0 <= j < info.len() && info[j].0 == stored implies j == at by {
            assert(ids[j] == stored);
        }
    }

    /// Unloading the same identifier a second time changes nothing.
    ///
    /// `once` is `start` after an unloading of `id`: another unloading finds
    /// no plugin under `id` and leaves the plugins of `once` as they are.
    pub proof fn unload_is_idempotent(start: Self, once: Self, id: u16)
        requires
            once@ == start@.remove(id),
        ensures
            !once@.contains_key(id),
            once@.remove(id) == once@,
    {
        assert(once@.remove(id) =~= once@);
    }

    /// A second load under the same identifier is refused, and the first
    /// plugin stays where it is.
    ///
    /// `first` is `start` after `plugin` was stored under `id`: a load that asks
    /// for `id` again is answered with [`LoadError::DuplicateId`], and `plugin`
    /// is still what `id` names.
    pub proof fn second_load_keeps_the_first(
        start: Self,
        first: Self,
        id: u16,
        plugin: LoadedPlugin<Theme, Renderer>,
    )
        requires
            first@ == start@.insert(id, plugin),
        ensures
            first.answer(Some(id)) == Err::<u16, LoadError>(LoadError::DuplicateId),
            first@.contains_key(id),
            first@[id] == plugin,
    {
    }

    /// An identifier that the handler chooses is not in use, and is not below
    /// the counter.
    pub proof fn chosen_identifier_is_unused(&self, chosen: u16)
        requires
            self.fresh() == Some(chosen),
        ensures
            !self@.contains_key(chosen),
            self.counter() <= chosen,
    {
    }
}

} // verus!
