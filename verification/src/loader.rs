//! What the module loader produces: a plugin instance bound to the library it
//! came from, or the reason why there is none.
//!
//! Opening a library and calling into it is beyond what can be verified, so the
//! host does that itself. This module fixes what the host opens (the file name
//! and the entry point), and what it gets to hold afterwards.
use crate::apply::{apply, apply_two};
use crate::message::MessageType;
use crate::plugin::Plugin;
use iced_core::Element;
use iced_runtime::Command;
use libloading::Library;
use vstd::prelude::*;

verus! {

/// `libloading::Library`: a handle that keeps a shared library mapped. Opaque
/// here.
#[verifier::external_type_specification]
#[verifier::external_body]
pub struct ExLibrary(libloading::Library);

/// `libloading::Error`: why the platform's loader refused. Opaque here.
#[verifier::external_type_specification]
#[verifier::external_body]
pub struct ExLibraryError(libloading::Error);

/// `Library::close` unloads the library and reports whether the platform
/// accepted that. Whether it does is up to the platform, so nothing is said of
/// the result.
pub assume_specification[ libloading::Library::close ](library: libloading::Library) -> (closed: Result<
    (),
    libloading::Error,
>)
;

/// Why a load did not add a plugin.
#[derive(Clone, Copy, Debug, PartialEq, Eq, Structural)]
pub enum LoadError {
    /// The library could not be opened: the path is wrong, the file is
    /// missing, or the platform's loader rejected it.
    CannotOpen,
    /// The library was opened but does not export the entry point.
    MissingEntryPoint,
    /// The caller asked for an identifier that is already taken.
    DuplicateId,
    /// The caller left the choice of the identifier to the handler, which has
    /// none left to give.
    NoIdentifierLeft,
}

/// The name of the one symbol that a plugin library must export: a function
/// without arguments that returns a freshly made [`crate::plugin::PluginFunction`].
pub fn entry_point() -> (symbol: &'static str)
    ensures
        symbol@ == "new_plugin"@,
{
    "new_plugin"
}

/// Whether `file` is `name` between a prefix and a suffix.
pub open spec fn decorates(file: Seq<char>, name: Seq<char>) -> bool {
    exists|prefix: Seq<char>, suffix: Seq<char>| file == prefix + name + suffix
}

/// `libloading::library_filename` puts the platform's prefix and suffix for
/// shared libraries around `name` (`lib` and `.so` on Linux). Which they are
/// depends on the platform; that `name` stands between them does not.
#[verifier::external_body]
fn platform_file_name(name: &str) -> (file: String)
    ensures
        decorates(file@, name@),
{
    libloading::library_filename(name).to_string_lossy().into_owned()
}

/// The file that the host opens for the plugin called `name`: `name` with the
/// platform's conventions for shared libraries around it.
pub fn library_file(name: &str) -> (file: String)
    ensures
        decorates(file@, name@),
        file@.len() >= name@.len(),
{
    let file = platform_file_name(name);
    proof {
        let (prefix, suffix) = choose|prefix: Seq<char>, suffix: Seq<char>|
            file@ == prefix + name@ + suffix;
        assert((prefix + name@ + suffix).len() == prefix.len() + name@.len() + suffix.len());
    }
    file
}

/// A plugin instance together with the library that its code lives in.
///
/// The two are held as one value and never handed out apart. The instance
/// comes first, so that wherever such a value is dropped the instance goes
/// before the library is unmapped.
#[verifier::reject_recursive_types(Theme)]
#[verifier::reject_recursive_types(Renderer)]
pub struct LoadedPlugin<Theme = iced_widget::Theme, Renderer = iced_widget::Renderer> {
    instance: Box<dyn Plugin<Theme, Renderer>>,
    library: Library,
}

impl<Theme, Renderer> LoadedPlugin<Theme, Renderer> {
    /// Binds `instance` to the `library` that made it.
    pub fn new(library: Library, instance: Box<dyn Plugin<Theme, Renderer>>) -> (loaded: Self)
        ensures
            loaded.library() == library,
    {
        LoadedPlugin { instance, library }
    }

    /// The library handle.
    pub closed spec fn library(self) -> Library {
        self.library
    }

    /// The instance's name.
    pub(crate) fn name(&self) -> (name: String) {
        self.instance.name().to_string()
    }

    /// Whether `name` is what the instance answers when asked for its name.
    pub closed spec fn named(self, name: String) -> bool {
        call_ensures(Self::name, (&self,), name)
    }

    /// Asks the instance for its name.
    pub(crate) fn ask_name(&self) -> (name: String)
        ensures
            self.named(name),
    {
        apply(Self::name, self)
    }

    /// The instance's view of its state.
    pub(crate) fn view(&self) -> Element<'_, MessageType, Theme, Renderer> {
        self.instance.view()
    }

    /// Whether `view` is what the instance answers when asked what to display.
    pub closed spec fn displays(self, view: Element<'_, MessageType, Theme, Renderer>) -> bool {
        call_ensures(Self::view, (&self,), view)
    }

    /// Asks the instance what to display.
    pub(crate) fn ask_view(&self) -> (view: Element<'_, MessageType, Theme, Renderer>)
        ensures
            self.displays(view),
    {
        apply(Self::view, self)
    }

    /// Hands `message` to the instance and returns what it asks for next. The
    /// instance stays with its library.
    pub(crate) fn update(&mut self, message: MessageType) -> (asked: Vec<Command<MessageType>>)
        ensures
            final(self).library() == old(self).library(),
    {
        self.instance.update(message)
    }

    /// One update, by value: the plugin as `message` leaves it, and what it asks
    /// for next.
    pub(crate) fn step(self, message: MessageType) -> (out: (Self, Vec<Command<MessageType>>))
        ensures
            out.0.library() == self.library(),
    {
        let mut plugin = self;
        let asked = plugin.update(message);
        (plugin, asked)
    }

    /// Whether `after` and `asked` are what handing `message` to this plugin
    /// gives: the plugin as the message leaves it, and the commands that it
    /// asks for, in order.
    pub closed spec fn answers(
        self,
        message: MessageType,
        after: Self,
        asked: Seq<Command<MessageType>>,
    ) -> bool {
        exists|out: (Self, Vec<Command<MessageType>>)|
            call_ensures(Self::step, (self, message), out) && out.0 == after && out.1@ == asked
    }

    /// Hands `message` to the plugin.
    pub(crate) fn ask(self, message: MessageType) -> (out: (Self, Vec<Command<MessageType>>))
        ensures
            self.answers(message, out.0, out.1@),
            out.0.library() == self.library(),
    {
        apply_two(Self::step, self, message)
    }

    /// Whether `closed` tells what `Library::close` answers for this plugin's
    /// library: `true` for `Ok`, `false` for an error.
    pub closed spec fn closes(self, closed: bool) -> bool {
        exists|answer: Result<(), libloading::Error>|
            call_ensures(libloading::Library::close, (self.library,), answer) && (closed
                <==> answer is Ok)
    }

    /// Drops the instance, then unloads the library; in that order. Returns
    /// whether the platform accepted the unloading: whether what
    /// `Library::close` answered for the library is `Ok`.
    pub fn release(self) -> (closed: bool)
        ensures
            self.closes(closed),
    {
        let LoadedPlugin { instance, library } = self;
        {
            // The instance's life ends with this block, before the library goes.
            let _instance = instance;
        }
        let answer = apply(Library::close, library);
        assert(call_ensures(libloading::Library::close, (self.library(),), answer));
        match answer {
            Ok(_) => true,
            Err(_) => false,
        }
    }
}

} // verus!
