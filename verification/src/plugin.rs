//! What a plugin must implement, and what the host must implement to receive
//! what plugins produce.
use crate::apply::apply_two;
use crate::message::MessageType;
use iced_core::Element;
use iced_futures::Subscription;
use iced_runtime::Command;
use vstd::prelude::*;

verus! {

/// `iced_core::Element`: a widget tree that produces `M`s. Opaque here.
#[verifier::external_type_specification]
#[verifier::external_body]
#[verifier::reject_recursive_types(M)]
#[verifier::reject_recursive_types(Theme)]
#[verifier::reject_recursive_types(Renderer)]
pub struct ExElement<'a, M, Theme, Renderer>(iced_core::Element<'a, M, Theme, Renderer>);

/// `iced_runtime::Command`: a batch of asynchronous actions that produce `T`s.
/// Opaque here.
#[verifier::external_type_specification]
#[verifier::external_body]
#[verifier::reject_recursive_types(T)]
pub struct ExCommand<T>(iced_runtime::Command<T>);

/// `iced_futures::Subscription`: a long-lived source of `M`s. Opaque here.
#[verifier::external_type_specification]
#[verifier::external_body]
#[verifier::reject_recursive_types(M)]
pub struct ExSubscription<M>(iced_futures::Subscription<M>);

/// `iced_widget::Theme`: the built-in theme of `iced`. Opaque here.
#[verifier::external_type_specification]
#[verifier::external_body]
pub struct ExTheme(iced_widget::Theme);

/// `iced_widget::Renderer`: the built-in renderer of `iced`. Opaque here.
#[verifier::external_type_specification]
#[verifier::external_body]
pub struct ExRenderer(iced_widget::Renderer);

/// The capability interface of a loaded plugin.
///
/// A plugin speaks only in [`MessageType`] envelopes around a message type of
/// its own; `Theme` and `Renderer` are those of the host application, by
/// default the built-in ones of `iced`.
pub trait Plugin<Theme = iced_widget::Theme, Renderer = iced_widget::Renderer>: Send + Sync {
    /// What to display. Reads the plugin's state and changes nothing.
    fn view(&self) -> Element<'_, MessageType, Theme, Renderer>;

    /// Processes one message and returns the follow-up commands, in order.
    ///
    /// This is the only place where a plugin's state changes. A message that
    /// was not made from the plugin's own message type is to be ignored.
    fn update(&mut self, message: MessageType) -> Vec<Command<MessageType>>;

    /// A background source of messages, if the plugin has one. Unless a
    /// plugin says otherwise it has none.
    fn subscription(&self) -> (source: Option<Subscription<MessageType>>)
        default_ensures
            source is None,
    {
        None
    }

    /// A human-readable name, shown by the host where it lists its plugins.
    fn name(&self) -> &str;

    /// The version of this interface. Advisory only; leave it as it is.
    fn version(&self) -> (version: &'static str)
        default_ensures
            version@ == "1.0.0"@,
    {
        default_version()
    }
}

/// What a plugin's entry point returns.
pub type PluginFunction<Theme = iced_widget::Theme, Renderer = iced_widget::Renderer> = Box<
    dyn Plugin<Theme, Renderer>,
>;

/// Implemented by the host's message type, so that what a plugin produces can
/// be turned into a host message that remembers which plugin it came from.
pub trait PluginLoader: Sized {
    /// The host message that carries `message` from, or to, plugin `id`.
    fn plugin_message(id: u16, message: MessageType) -> Self;
}

/// The version that [`Plugin::version`] reports unless overridden.
pub fn default_version() -> (version: &'static str)
    ensures
        version@ == "1.0.0"@,
{
    "1.0.0"
}

/// `Command::map`: the same actions, each of whose messages is passed through
/// [`PluginLoader::plugin_message`] with `id` before it reaches the host.
#[verifier::external_body]
pub(crate) fn retag_command<T: 'static + PluginLoader>(id: u16, command: Command<MessageType>) -> (tagged: Command<T>) {
    command.map(move |message| T::plugin_message(id, message))
}

/// `Element::map`: the same widget tree, each of whose messages is passed
/// through [`PluginLoader::plugin_message`] with `id` before it reaches the
/// host.
#[verifier::external_body]
pub(crate) fn retag_view<'a, T, Theme, Renderer>(
    id: u16,
    view: Element<'a, MessageType, Theme, Renderer>,
) -> (tagged: Element<'a, T, Theme, Renderer>) where
    T: 'a + PluginLoader,
    Theme: 'a,
    Renderer: 'a + iced_core::Renderer,
 {
    view.map(move |message| T::plugin_message(id, message))
}

/// Whether `tagged` is `view` tagged with `id`: whether it is what
/// `Element::map` gives for `view` and the function that makes a host message
/// of `id` and a plugin's message.
pub closed spec fn shows<'a, T, Theme, Renderer>(
    id: u16,
    view: Element<'a, MessageType, Theme, Renderer>,
    tagged: Element<'a, T, Theme, Renderer>,
) -> bool where T: 'a + PluginLoader, Theme: 'a, Renderer: 'a + iced_core::Renderer {
    call_ensures(retag_view::<T, Theme, Renderer>, (id, view), tagged)
}

/// Tags every message of `view` with `id`.
pub(crate) fn tag_view<'a, T, Theme, Renderer>(
    id: u16,
    view: Element<'a, MessageType, Theme, Renderer>,
) -> (tagged: Element<'a, T, Theme, Renderer>) where
    T: 'a + PluginLoader,
    Theme: 'a,
    Renderer: 'a + iced_core::Renderer,

    ensures
        shows(id, view, tagged),
{
    apply_two(retag_view::<T, Theme, Renderer>, id, view)
}

/// Whether `tagged` is `command` tagged with `id`: whether it is what
/// `Command::map` gives for `command` and the function that makes a host
/// message of `id` and a plugin's message.
pub closed spec fn tags<T: 'static + PluginLoader>(
    id: u16,
    command: Command<MessageType>,
    tagged: Command<T>,
) -> bool {
    call_ensures(retag_command::<T>, (id, command), tagged)
}

/// Whether `tagged` is `commands` with every command tagged with `id`, one for
/// one and in the same order.
pub open spec fn all_tagged<T: 'static + PluginLoader>(
    id: u16,
    commands: Seq<Command<MessageType>>,
    tagged: Seq<Command<T>>,
) -> bool {
    &&& tagged.len() == commands.len()
    &&& forall|i: int| 0 <= i < tagged.len() ==> tags(id, commands[i], #[trigger] tagged[i])
}

/// Tags every command of `commands` with `id`, keeping their order.
pub fn retag_commands<T: 'static + PluginLoader>(id: u16, commands: Vec<Command<MessageType>>) -> (tagged: Vec<Command<T>>)
    ensures
        all_tagged(id, commands@, tagged@),
{
    let mut tagged: Vec<Command<T>> = Vec::new();
    for command in walk: commands
        invariant
            tagged@.len() == walk.index(),
            forall|i: int| 0 <= i < tagged@.len() ==> tags(id, walk.seq()[i], #[trigger] tagged@[i]),
    {
        tagged.push(apply_two(retag_command::<T>, id, command));
    }
    tagged
}

} // verus!
