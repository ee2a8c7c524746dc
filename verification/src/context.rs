//! The two handles of an engine instance, [`Context`] while it may be the
//! current one and [`SuspendedContext`] while it is not, and the transitions
//! between them.

use crate::engine::{Engine, EngineState, Instance, Io};
use crate::gate::hold;
use crate::text::{c_text, decode_c_str, lemma_c_text_push_nul, utf8_lossy};
use vstd::prelude::*;
use vstd::slice::slice_to_vec;
use vstd::string::StringExecFns;
use vstd::utf8::{decode_utf8, encode_utf8, valid_utf8};

verus! {

broadcast use crate::engine::group_engine_views;

/// What a context is, apart from how it is stored: the handle of its engine
/// instance, its four named strings, and the settings the instance holds.
pub struct ContextView {
    pub handle: nat,
    pub ini_filename: Option<Seq<char>>,
    pub log_filename: Option<Seq<char>>,
    pub platform_name: Option<Seq<char>>,
    pub renderer_name: Option<Seq<char>>,
    pub settings: Seq<u8>,
}

impl ContextView {
    /// A context as it is created: no name set, no settings.
    pub open spec fn fresh(handle: nat) -> ContextView {
        ContextView {
            handle,
            ini_filename: None,
            log_filename: None,
            platform_name: None,
            renderer_name: None,
            settings: Seq::empty(),
        }
    }

    /// The pointers that the engine holds for this context: each is set
    /// exactly when the context keeps a buffer for it.
    pub open spec fn io(self) -> Io {
        Io {
            ini_filename: self.ini_filename is Some,
            log_filename: self.log_filename is Some,
            backend_platform_name: self.platform_name is Some,
            backend_renderer_name: self.renderer_name is Some,
        }
    }
}

/// An active context: the owner of one engine instance and of the buffers
/// that the instance's name pointers refer to.
#[derive(Debug)]
pub struct Context {
    raw: Instance,
    ini_filename: Option<String>,
    log_filename: Option<String>,
    platform_name: Option<String>,
    renderer_name: Option<String>,
}

/// The view of an optional owned string.
pub open spec fn text_view(text: Option<String>) -> Option<Seq<char>> {
    match text {
        Some(s) => Some(s@),
        None => None,
    }
}

/// The view of an optional borrowed string.
pub open spec fn str_view(text: Option<&str>) -> Option<Seq<char>> {
    match text {
        Some(s) => Some(s@),
        None => None,
    }
}

/// Stores a new buffer and points the engine at it, or clears both, in one
/// step.
fn repoint(pointer: &mut bool, buffer: &mut Option<String>, text: Option<String>)
    ensures
        *final(pointer) == text is Some,
        *final(buffer) == text,
    no_unwind
{
    *pointer = match text {
        Some(_) => true,
        None => false,
    };
    *buffer = text;
}

/// Reads a name through the engine's pointer: nothing if the pointer is not
/// set, else the text in the buffer it refers to.
fn read_through<'a>(pointer: bool, buffer: &'a Option<String>) -> (text: Option<&'a str>)
    requires
        pointer == buffer is Some,
    ensures
        str_view(text) == text_view(*buffer),
{
    if !pointer {
        None
    } else {
        match buffer {
            Some(owned) => Some(owned.as_str()),
            None => None,
        }
    }
}

impl View for Context {
    type V = ContextView;

    closed spec fn view(&self) -> ContextView {
        ContextView {
            handle: self.raw@.handle,
            ini_filename: text_view(self.ini_filename),
            log_filename: text_view(self.log_filename),
            platform_name: text_view(self.platform_name),
            renderer_name: text_view(self.renderer_name),
            settings: self.raw@.settings,
        }
    }
}

/// A context that is guaranteed not to be the current one. It keeps its
/// state, and is of no use until it is activated.
#[derive(Debug)]
pub struct SuspendedContext(Context);

impl View for SuspendedContext {
    type V = ContextView;

    closed spec fn view(&self) -> ContextView {
        self.0@
    }
}

/// Empties the current-context slot.
pub(crate) fn clear_current_context(state: &mut EngineState)
    ensures
        final(state)@ == old(state)@.set_current(None),
{
    state.set_current_context(None);
}

/// Whether the current-context slot is empty.
pub fn no_current_context(engine: &Engine) -> (none: bool)
    ensures
        none == engine@.no_current(),
{
    engine.state.get_current_context().is_none()
}

impl Context {
    /// Each of the engine's name pointers is set exactly when the buffer it
    /// refers to is kept.
    #[verifier::type_invariant]
    closed spec fn paired(self) -> bool {
        self.raw@.io == self@.io()
    }

    /// Creates a new context and makes it the current one.
    ///
    /// Another context must not be current: suspend or destroy it first.
    pub fn create(engine: &mut Engine) -> (context: Context)
        requires
            old(engine)@.no_current(),
        ensures
            final(engine)@ == old(engine)@.create(),
            final(engine)@.is_current(context@.handle),
            context@ == ContextView::fresh(old(engine)@.next_handle()),
    {
        Self::create_internal(engine)
    }

    /// Suspends this context, so that another one can become current.
    ///
    /// The context must be the current one.
    pub fn suspend(self, engine: &mut Engine) -> (suspended: SuspendedContext)
        requires
            old(engine)@.is_current(self@.handle),
        ensures
            final(engine)@ == old(engine)@.set_current(None),
            final(engine)@.no_current(),
            suspended@ == self@,
    {
        let _guard = hold(&engine.gate);
        clear_current_context(&mut engine.state);
        SuspendedContext(self)
    }

    /// Whether this context is the current one.
    pub fn is_current_context(&self, engine: &Engine) -> (current: bool)
        ensures
            current == engine@.is_current(self@.handle),
    {
        engine.state.get_current_context() == Some(self.raw.handle())
    }

    /// Destroys the context: its engine instance is released, and with it the
    /// current-context slot if this context was the current one.
    pub fn destroy(self, engine: &mut Engine)
        ensures
            final(engine)@ == old(engine)@.destroy(self@.handle),
    {
        let _guard = hold(&engine.gate);
        engine.state.destroy_context(self.raw);
    }

    /// The pointers that the engine holds for this context.
    pub fn io(&self) -> (io: Io)
        ensures
            io == self@.io(),
    {
        proof {
            use_type_invariant(self);
        }
        self.raw.io
    }

    /// The file that the engine persists its settings to, if one is set.
    pub fn ini_filename(&self) -> (name: Option<&str>)
        ensures
            str_view(name) == self@.ini_filename,
    {
        proof {
            use_type_invariant(self);
        }
        read_through(self.raw.io.ini_filename, &self.ini_filename)
    }

    /// Sets or clears the name of the file that the engine persists its
    /// settings to: the context keeps the new text in place of the old, and
    /// the engine's pointer follows it.
    pub fn set_ini_filename(&mut self, ini_filename: Option<String>)
        ensures
            final(self)@ == (ContextView { ini_filename: text_view(ini_filename), ..old(self)@ }),
    {
        proof {
            use_type_invariant(&*self);
        }
        repoint(&mut self.raw.io.ini_filename, &mut self.ini_filename, ini_filename);
    }

    /// The file that the engine writes its log to, if one is set.
    pub fn log_filename(&self) -> (name: Option<&str>)
        ensures
            str_view(name) == self@.log_filename,
    {
        proof {
            use_type_invariant(self);
        }
        read_through(self.raw.io.log_filename, &self.log_filename)
    }

    /// Sets or clears the name of the file that the engine writes its log
    /// to: the context keeps the new text in place of the old, and the
    /// engine's pointer follows it.
    pub fn set_log_filename(&mut self, log_filename: Option<String>)
        ensures
            final(self)@ == (ContextView { log_filename: text_view(log_filename), ..old(self)@ }),
    {
        proof {
            use_type_invariant(&*self);
        }
        repoint(&mut self.raw.io.log_filename, &mut self.log_filename, log_filename);
    }

    /// The name of the platform backend, if one is set.
    pub fn platform_name(&self) -> (name: Option<&str>)
        ensures
            str_view(name) == self@.platform_name,
    {
        proof {
            use_type_invariant(self);
        }
        read_through(self.raw.io.backend_platform_name, &self.platform_name)
    }

    /// Sets or clears the name of the platform backend: the context keeps
    /// the new text in place of the old, and the engine's pointer follows it.
    pub fn set_platform_name(&mut self, platform_name: Option<String>)
        ensures
            final(self)@ == (ContextView { platform_name: text_view(platform_name), ..old(self)@ }),
    {
        proof {
            use_type_invariant(&*self);
        }
        repoint(&mut self.raw.io.backend_platform_name, &mut self.platform_name, platform_name);
    }

    /// The name of the renderer backend, if one is set.
    pub fn renderer_name(&self) -> (name: Option<&str>)
        ensures
            str_view(name) == self@.renderer_name,
    {
        proof {
            use_type_invariant(self);
        }
        read_through(self.raw.io.backend_renderer_name, &self.renderer_name)
    }

    /// Sets or clears the name of the renderer backend: the context keeps
    /// the new text in place of the old, and the engine's pointer follows it.
    pub fn set_renderer_name(&mut self, renderer_name: Option<String>)
        ensures
            final(self)@ == (ContextView { renderer_name: text_view(renderer_name), ..old(self)@ }),
    {
        proof {
            use_type_invariant(&*self);
        }
        repoint(&mut self.raw.io.backend_renderer_name, &mut self.renderer_name, renderer_name);
    }

    /// Hands `data` to the engine as the persisted settings of this context.
    pub fn load_ini_settings(&mut self, data: &str)
        ensures
            final(self)@ == (ContextView { settings: encode_utf8(data@), ..old(self)@ }),
    {
        proof {
            use_type_invariant(&*self);
        }
        let bytes = slice_to_vec(data.as_bytes());
        self.raw.load_settings_from_memory(bytes);
    }

    /// Appends the engine's persisted settings of this context to `buf`, as
    /// text: what the engine wrote up to its first NUL byte, with anything
    /// that is not valid UTF-8 replaced.
    pub fn save_ini_settings(&mut self, buf: &mut String)
        ensures
            final(self)@ == old(self)@,
            final(buf)@ == old(buf)@ + utf8_lossy(c_text(old(self)@.settings)),
            valid_utf8(c_text(old(self)@.settings)) ==> final(buf)@ == old(buf)@ + decode_utf8(
                c_text(old(self)@.settings),
            ),
    {
        let buffer = self.raw.save_settings_to_memory();
        proof {
            lemma_c_text_push_nul(self@.settings);
        }
        let text = decode_c_str(buffer.as_slice());
        buf.append(text.as_str());
    }

    fn create_internal(engine: &mut Engine) -> (context: Context)
        requires
            old(engine)@.no_current(),
        ensures
            final(engine)@ == old(engine)@.create(),
            context@ == ContextView::fresh(old(engine)@.next_handle()),
    {
        let _guard = hold(&engine.gate);
        let raw = engine.state.create_context();
        Context {
            raw,
            ini_filename: None,
            log_filename: None,
            platform_name: None,
            renderer_name: None,
        }
    }
}

impl SuspendedContext {
    /// Creates a new context that is not current, whether or not another
    /// context is.
    pub fn create(engine: &mut Engine) -> (suspended: SuspendedContext)
        ensures
            final(engine)@ == old(engine)@.create().deactivate(old(engine)@.next_handle()),
            !final(engine)@.is_current(suspended@.handle),
            suspended@ == ContextView::fresh(old(engine)@.next_handle()),
    {
        Self::create_internal(engine)
    }

    /// Tries to make this context the current one.
    ///
    /// With the slot empty the context becomes current and comes back as
    /// `Ok`. With another context current nothing changes, and the suspended
    /// context comes back as `Err`, to be tried again later.
    pub fn activate(self, engine: &mut Engine) -> (result: Result<Context, SuspendedContext>)
        ensures
            final(engine)@ == old(engine)@.activate(self@.handle),
            result is Ok <==> old(engine)@.no_current(),
            old(engine)@.no_current() ==> (result matches Ok(context) && context@ == self@),
            !old(engine)@.no_current() ==> result == Err::<Context, SuspendedContext>(self),
    {
        let _guard = hold(&engine.gate);
        if no_current_context(engine) {
            engine.state.set_current_context(Some(self.0.raw.handle()));
            Ok(self.0)
        } else {
            Err(self)
        }
    }

    /// Destroys the context: its engine instance is released.
    pub fn destroy(self, engine: &mut Engine)
        ensures
            final(engine)@ == old(engine)@.destroy(self@.handle),
    {
        self.0.destroy(engine);
    }

    fn create_internal(engine: &mut Engine) -> (suspended: SuspendedContext)
        ensures
            final(engine)@ == old(engine)@.create().deactivate(old(engine)@.next_handle()),
            suspended@ == ContextView::fresh(old(engine)@.next_handle()),
    {
        let _guard = hold(&engine.gate);
        let raw = engine.state.create_context();
        let ctx = Context {
            raw,
            ini_filename: None,
            log_filename: None,
            platform_name: None,
            renderer_name: None,
        };
        if ctx.is_current_context(engine) {
            // The engine made the new instance current: take that back.
            clear_current_context(&mut engine.state);
        }
        SuspendedContext(ctx)
    }
}

} // verus!
