//! Plugins and the registration machinery: the descriptor a plugin exposes,
//! the error type a plugin call may return, the plugin interface itself, the
//! proxy that ties a plugin to the library it came from, and the registrar a
//! module fills during its registration entry point.

use vstd::prelude::*;

use crate::message::Message;
use crate::message::MessageView;
use crate::text::clone_strings;
use crate::text::spec_join;
use crate::text::join_with;

verus! {

/// Static metadata a plugin exposes for introspection.
#[derive(Debug, PartialEq, Eq)]
pub struct PluginInfo {
    pub name: String,
    pub version: String,
    pub authors: String,
    pub repo: Option<String>,
    pub commands: Vec<String>,
}

/// Mathematical image of a [`PluginInfo`].
pub ghost struct PluginInfoView {
    pub name: Seq<char>,
    pub version: Seq<char>,
    pub authors: Seq<char>,
    pub repo: Option<Seq<char>>,
    pub commands: Seq<Seq<char>>,
}

impl DeepView for PluginInfo {
    type V = PluginInfoView;

    open spec fn deep_view(&self) -> PluginInfoView {
        PluginInfoView {
            name: self.name@,
            version: self.version@,
            authors: self.authors@,
            repo: self.repo.deep_view(),
            commands: self.commands.deep_view(),
        }
    }
}

/// Copies an optional string; the copy has the same image.
fn clone_opt_string(v: &Option<String>) -> (r: Option<String>)
    ensures
        r.deep_view() == v.deep_view(),
{
    match v {
        Option::None => Option::None,
        Option::Some(s) => Option::Some(s.clone()),
    }
}

impl Clone for PluginInfo {
    /// Copies the descriptor; the copy has the same image.
    fn clone(&self) -> (r: Self)
        ensures
            r.deep_view() == self.deep_view(),
    {
        PluginInfo {
            name: self.name.clone(),
            version: self.version.clone(),
            authors: self.authors.clone(),
            repo: clone_opt_string(&self.repo),
            commands: clone_strings(&self.commands),
        }
    }
}

/// The display text of a descriptor: title line with the optional repository,
/// an author line, and the supported commands.
pub open spec fn spec_describe(info: PluginInfoView) -> Seq<char> {
    info.name + " v"@ + info.version + (match info.repo {
        Option::None => Seq::<char>::empty(),
        Option::Some(repo) => " ["@ + repo + "]"@,
    }) + "\n"@ + "Authors: "@ + info.authors + "\n"@ + (if info.commands.len() == 0 {
        "Commands: None"@
    } else {
        "Commands: ["@ + spec_join(info.commands, ", "@) + "]"@
    })
}

impl PluginInfo {
    /// The descriptor as display text.
    pub fn describe(&self) -> (r: String)
        ensures
            r@ == spec_describe(self.deep_view()),
    {
        let mut r = self.name.clone();
        r.append(" v");
        r.append(self.version.as_str());
        match &self.repo {
            Option::Some(repo) => {
                r.append(" [");
                r.append(repo.as_str());
                r.append("]");
            },
            Option::None => {},
        }
        r.append("\n");
        r.append("Authors: ");
        r.append(self.authors.as_str());
        r.append("\n");
        if self.commands.len() == 0 {
            r.append("Commands: None");
        } else {
            r.append("Commands: [");
            let joined = join_with(&self.commands, ", ");
            r.append(joined.as_str());
            r.append("]");
        }
        proof {
            assert(r@ =~= spec_describe(self.deep_view()));
        }
        r
    }
}

/// The only error a plugin call may return; richer causes are wrapped into
/// [`InvocationError::Other`].
#[derive(Debug, PartialEq, Eq)]
pub enum InvocationError {
    InvalidArgumentCount { expected: usize, found: usize },
    Other { msg: String },
}

/// Mathematical image of an [`InvocationError`].
pub ghost enum InvocationErrorView {
    InvalidArgumentCount { expected: int, found: int },
    Other { msg: Seq<char> },
}

impl DeepView for InvocationError {
    type V = InvocationErrorView;

    open spec fn deep_view(&self) -> InvocationErrorView {
        match self {
            InvocationError::InvalidArgumentCount { expected, found } => {
                InvocationErrorView::InvalidArgumentCount {
                    expected: *expected as int,
                    found: *found as int,
                }
            },
            InvocationError::Other { msg } => InvocationErrorView::Other { msg: msg@ },
        }
    }
}

impl Clone for InvocationError {
    /// Copies the error; the copy has the same image.
    fn clone(&self) -> (r: Self)
        ensures
            r.deep_view() == self.deep_view(),
    {
        match self {
            InvocationError::InvalidArgumentCount { expected, found } => {
                InvocationError::InvalidArgumentCount { expected: *expected, found: *found }
            },
            InvocationError::Other { msg } => InvocationError::Other { msg: msg.clone() },
        }
    }
}

impl InvocationError {
    /// The error as display text, on a line of its own.
    pub fn display_string(&self) -> (r: String)
        ensures
            match self.deep_view() {
                InvocationErrorView::Other { msg } => r@ == "InvocationError: "@ + msg + "\n"@,
                InvocationErrorView::InvalidArgumentCount { expected, found } => r@
                    == "Invalid argument count: "@ + crate::text::spec_decimal(found as nat)
                    + " (expected "@ + crate::text::spec_decimal(expected as nat) + ")\n"@,
            },
    {
        match self {
            InvocationError::Other { msg } => {
                let mut r = String::from_str("InvocationError: ");
                r.append(msg.as_str());
                r.append("\n");
                proof {
                    assert(r@ =~= "InvocationError: "@ + msg@ + "\n"@);
                }
                r
            },
            InvocationError::InvalidArgumentCount { expected, found } => {
                let mut r = String::from_str("Invalid argument count: ");
                let found_text = crate::text::usize_to_string(*found);
                r.append(found_text.as_str());
                r.append(" (expected ");
                let expected_text = crate::text::usize_to_string(*expected);
                r.append(expected_text.as_str());
                r.append(")\n");
                proof {
                    assert(r@ =~= "Invalid argument count: "@ + crate::text::spec_decimal(
                        *found as nat,
                    ) + " (expected "@ + crate::text::spec_decimal(*expected as nat) + ")\n"@);
                }
                r
            },
        }
    }
}

impl From<String> for InvocationError {
    /// Wraps a plain message.
    fn from(other: String) -> (r: Self)
        ensures
            r == (InvocationError::Other { msg: other }),
    {
        InvocationError::Other { msg: other }
    }
}

impl vstd::std_specs::convert::FromSpecImpl<String> for InvocationError {
    open spec fn obeys_from_spec() -> bool {
        true
    }

    open spec fn from_spec(other: String) -> Self {
        InvocationError::Other { msg: other }
    }
}

/// The image of what one plugin call produced: the emitted batch, or the
/// error that stopped the plugin.
pub open spec fn call_result_view(r: Result<Vec<Message>, InvocationError>) -> Result<
    Seq<MessageView>,
    InvocationErrorView,
> {
    match r {
        Result::Ok(v) => Result::Ok(v.deep_view()),
        Result::Err(e) => Result::Err(e.deep_view()),
    }
}

/// A plugin: it answers each message with a batch of output messages, or with
/// the error that stops it, and exposes a descriptor. The `response` and
/// `descriptor` specifications pin the behaviour an implementation must
/// exhibit, so that the host protocol can be verified against the plugins it
/// routes to.
pub trait Plugin: Sized {
    /// What the plugin answers to one message.
    spec fn response(&self, m: MessageView) -> Result<Seq<MessageView>, InvocationErrorView>;

    /// The descriptor the plugin exposes.
    spec fn descriptor(&self) -> PluginInfoView;

    /// Handles one message, answering exactly what `response` states.
    fn call(&self, message: &Message) -> (r: Result<Vec<Message>, InvocationError>)
        ensures
            call_result_view(r) == self.response(message.deep_view()),
    ;

    /// The descriptor of the plugin, exactly what `descriptor` states.
    fn info(&self) -> (r: PluginInfo)
        ensures
            r.deep_view() == self.descriptor(),
    ;
}

/// Ready-made plugins with fixed behaviours; scenarios and embeddings that
/// need a plugin of a known response use these.
#[derive(Debug, PartialEq, Eq)]
pub enum SamplePlugin {
    /// Answers every message with exactly one copy of it.
    Echo,
    /// Consumes every message and answers with an empty batch.
    Silent,
    /// Fails every call with the held error.
    Fail(InvocationError),
}

impl Plugin for SamplePlugin {
    open spec fn response(&self, m: MessageView) -> Result<Seq<MessageView>, InvocationErrorView> {
        match self {
            SamplePlugin::Echo => Result::Ok(seq![m]),
            SamplePlugin::Silent => Result::Ok(Seq::<MessageView>::empty()),
            SamplePlugin::Fail(e) => Result::Err(e.deep_view()),
        }
    }

    open spec fn descriptor(&self) -> PluginInfoView {
        PluginInfoView {
            name: "Sample Plugin"@,
            version: crate::CORE_VERSION@,
            authors: ""@,
            repo: Option::None,
            commands: Seq::<Seq<char>>::empty(),
        }
    }

    fn call(&self, message: &Message) -> (r: Result<Vec<Message>, InvocationError>)
        ensures
            call_result_view(r) == self.response(message.deep_view()),
    {
        match self {
            SamplePlugin::Echo => {
                let mut batch: Vec<Message> = Vec::new();
                batch.push(message.clone());
                proof {
                    assert(batch.deep_view() =~= seq![message.deep_view()]);
                }
                Result::Ok(batch)
            },
            SamplePlugin::Silent => {
                let batch: Vec<Message> = Vec::new();
                proof {
                    assert(batch.deep_view() =~= Seq::<MessageView>::empty());
                }
                Result::Ok(batch)
            },
            SamplePlugin::Fail(e) => Result::Err(e.clone()),
        }
    }

    fn info(&self) -> (r: PluginInfo)
        ensures
            r.deep_view() == self.descriptor(),
    {
        let r = PluginInfo {
            name: String::from_str("Sample Plugin"),
            version: String::from_str(crate::CORE_VERSION),
            authors: String::from_str(""),
            repo: Option::None,
            commands: Vec::new(),
        };
        proof {
            assert(r.commands.deep_view() =~= Seq::<Seq<char>>::empty());
        }
        r
    }
}

/// Binds one plugin to the library it was registered from, so that the
/// library handle stays held for exactly as long as the plugin is reachable.
/// The library is named by its position in the host's library list; a plugin
/// linked into the process itself carries no library.
#[derive(Debug, PartialEq, Eq)]
pub struct PluginProxy<P> {
    pub plugin: P,
    pub library: Option<usize>,
}

impl<P: Plugin> Plugin for PluginProxy<P> {
    /// A proxy forwards every call verbatim to the wrapped plugin.
    open spec fn response(&self, m: MessageView) -> Result<Seq<MessageView>, InvocationErrorView> {
        self.plugin.response(m)
    }

    /// A proxy exposes the wrapped plugin's descriptor unchanged.
    open spec fn descriptor(&self) -> PluginInfoView {
        self.plugin.descriptor()
    }

    fn call(&self, message: &Message) -> (r: Result<Vec<Message>, InvocationError>)
        ensures
            call_result_view(r) == self.response(message.deep_view()),
    {
        self.plugin.call(message)
    }

    fn info(&self) -> (r: PluginInfo)
        ensures
            r.deep_view() == self.descriptor(),
    {
        self.plugin.info()
    }
}

/// The fixed-layout record a plugin module exports under the well-known
/// symbol: the compiler fingerprint and core version it was built against.
/// The registration entry point the record carries is foreign code; the
/// loader model receives the plugins that entry point registered.
#[derive(Debug, PartialEq, Eq)]
pub struct CommandDeclaration {
    pub rustc_version: String,
    pub core_version: String,
}

/// Mathematical image of a [`CommandDeclaration`].
pub ghost struct CommandDeclarationView {
    pub rustc_version: Seq<char>,
    pub core_version: Seq<char>,
}

impl DeepView for CommandDeclaration {
    type V = CommandDeclarationView;

    open spec fn deep_view(&self) -> CommandDeclarationView {
        CommandDeclarationView {
            rustc_version: self.rustc_version@,
            core_version: self.core_version@,
        }
    }
}

/// The collection a module fills during its registration entry point: every
/// plugin it pushes in is bound to the library the registrar was made for.
pub struct PluginRegistrar<P> {
    pub commands: Vec<PluginProxy<P>>,
    pub library: Option<usize>,
}

impl<P: Plugin> PluginRegistrar<P> {
    /// A fresh registrar bound to the given library.
    pub fn new(library: Option<usize>) -> (r: PluginRegistrar<P>)
        ensures
            r.commands@ == Seq::<PluginProxy<P>>::empty(),
            r.bound_library() == library,
    {
        let r = PluginRegistrar { commands: Vec::new(), library };
        proof {
            assert(r.commands@ =~= Seq::<PluginProxy<P>>::empty());
        }
        r
    }

    /// The library every registered plugin is bound to.
    pub open spec fn bound_library(&self) -> Option<usize> {
        self.library
    }

    /// Registers one plugin: wraps it with the bound library and appends it.
    pub fn register(&mut self, plugin: P)
        ensures
            final(self).commands@ == old(self).commands@.push(
                PluginProxy { plugin, library: old(self).bound_library() },
            ),
            final(self).bound_library() == old(self).bound_library(),
    {
        let library = self.library;
        self.commands.push(PluginProxy { plugin, library });
    }
}

} // verus!
