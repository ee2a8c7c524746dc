//! What holds of the transitions, whatever the order in which they are made.
//!
//! Every statement here is over the models that the contracts of
//! [`Context`](crate::Context) and [`SuspendedContext`](crate::SuspendedContext)
//! are written in, and is proved from the definitions in
//! [`EngineModel`](crate::EngineModel).

use crate::context::ContextView;
use crate::engine::EngineModel;
use crate::text::{c_text, lemma_c_len_is, lemma_encoding_without_nul};
use vstd::prelude::*;
use vstd::utf8::{
    decode_utf8, encode_utf8, encode_utf8_decode_utf8, encode_utf8_valid_utf8, valid_utf8,
};

verus! {

/// Creating a context while none is current makes it the current one, and
/// from then on the slot is taken: a second context cannot be created as the
/// current one.
pub proof fn lemma_create_takes_the_slot(engine: EngineModel)
    requires
        engine.no_current(),
    ensures
        engine.create().is_current(engine.next_handle()),
        engine.create().live(engine.next_handle()),
        !engine.create().no_current(),
{
}

/// While a live context is current, neither creating a suspended context nor
/// trying to activate one frees the slot or changes who holds it.
pub proof fn lemma_slot_stays_taken(engine: EngineModel, other: nat)
    requires
        engine.wf(),
        !engine.no_current(),
    ensures
        engine.create().deactivate(engine.next_handle()).current == engine.current,
        engine.activate(other) == engine,
{
}

/// The slot never names two contexts: if one handle is current, no other is.
pub proof fn lemma_at_most_one_current(engine: EngineModel, a: nat, b: nat)
    requires
        engine.is_current(a),
        engine.is_current(b),
    ensures
        a == b,
{
}

/// A handle that is being issued differs from every handle issued before.
pub proof fn lemma_new_handle_is_fresh(engine: EngineModel, earlier: nat)
    requires
        engine.issued(earlier),
    ensures
        earlier != engine.next_handle(),
        !engine.issued(engine.next_handle()),
        engine.create().issued(engine.next_handle()),
        engine.create().issued(earlier),
        engine.create().live(earlier) == engine.live(earlier),
{
}

/// Every transition keeps the slot empty or naming a live instance, as long
/// as only live instances are activated.
pub proof fn lemma_transitions_keep_wf(engine: EngineModel, handle: nat)
    requires
        engine.wf(),
    ensures
        EngineModel::initial().wf(),
        engine.create().wf(),
        engine.create().deactivate(engine.next_handle()).wf(),
        engine.set_current(None).wf(),
        engine.live(handle) ==> engine.activate(handle).wf(),
        engine.destroy(handle).wf(),
{
}

/// After a context was suspended, no context is current.
pub proof fn lemma_suspend_empties_the_slot(engine: EngineModel)
    ensures
        engine.set_current(None).no_current(),
        engine.set_current(None).slots == engine.slots,
{
}

/// A context created as suspended is alive and is not the current one; and
/// if no context was current before, none is afterwards.
pub proof fn lemma_created_suspended_is_not_current(engine: EngineModel)
    ensures
        !engine.create().deactivate(engine.next_handle()).is_current(engine.next_handle()),
        engine.create().deactivate(engine.next_handle()).live(engine.next_handle()),
        engine.no_current() ==> engine.create().deactivate(engine.next_handle()).no_current(),
{
}

/// A context that is not current stays so whatever happens to other
/// contexts: it becomes current only by its own activation.
pub proof fn lemma_suspended_stays_suspended(engine: EngineModel, handle: nat, other: nat)
    requires
        engine.issued(handle),
        !engine.is_current(handle),
        other != handle,
    ensures
        !engine.create().is_current(handle),
        !engine.create().deactivate(engine.next_handle()).is_current(handle),
        !engine.set_current(None).is_current(handle),
        !engine.activate(other).is_current(handle),
        !engine.destroy(other).is_current(handle),
{
}

/// Suspending the current context and activating it again leaves the engine
/// as it was, with that context current.
pub proof fn lemma_suspend_then_activate(engine: EngineModel, handle: nat)
    requires
        engine.is_current(handle),
    ensures
        engine.set_current(None).activate(handle) == engine,
        engine.set_current(None).activate(handle).is_current(handle),
{
}

/// Destroying the current context empties the slot; destroying a context
/// that is not current, as a suspended one is, leaves the slot as it was.
/// Either way the instance is alive no longer, and no other one is touched.
pub proof fn lemma_destroy(engine: EngineModel, handle: nat, other: nat)
    requires
        other != handle,
    ensures
        engine.is_current(handle) ==> engine.destroy(handle).no_current(),
        !engine.is_current(handle) ==> engine.destroy(handle).current == engine.current,
        !engine.destroy(handle).live(handle),
        engine.destroy(handle).live(other) == engine.live(other),
{
}

/// Activation while another context is current changes nothing, and can be
/// tried again: once that context is suspended or destroyed, it succeeds.
pub proof fn lemma_activate_contended(engine: EngineModel, handle: nat, holder: nat)
    requires
        engine.is_current(holder),
    ensures
        engine.activate(handle) == engine,
        engine.set_current(None).activate(handle).is_current(handle),
        engine.destroy(holder).activate(handle).is_current(handle),
{
}

/// Setting a name and then clearing it shows first the text and then
/// nothing, and leaves the context as it was when the name was unset; no
/// other name and no setting is touched on the way.
pub proof fn lemma_set_then_clear_name(context: ContextView, text: Seq<char>)
    ensures
        ({
            let set = ContextView { platform_name: Some(text), ..context };
            let cleared = ContextView { platform_name: None, ..set };
            &&& set.platform_name == Some(text)
            &&& set.io().backend_platform_name
            &&& cleared.platform_name is None
            &&& !cleared.io().backend_platform_name
            &&& context.platform_name is None ==> cleared == context
        }),
        ({
            let set = ContextView { renderer_name: Some(text), ..context };
            let cleared = ContextView { renderer_name: None, ..set };
            &&& set.renderer_name == Some(text)
            &&& set.io().backend_renderer_name
            &&& cleared.renderer_name is None
            &&& !cleared.io().backend_renderer_name
            &&& context.renderer_name is None ==> cleared == context
        }),
        ({
            let set = ContextView { ini_filename: Some(text), ..context };
            let cleared = ContextView { ini_filename: None, ..set };
            &&& set.ini_filename == Some(text)
            &&& set.io().ini_filename
            &&& cleared.ini_filename is None
            &&& !cleared.io().ini_filename
            &&& context.ini_filename is None ==> cleared == context
        }),
        ({
            let set = ContextView { log_filename: Some(text), ..context };
            let cleared = ContextView { log_filename: None, ..set };
            &&& set.log_filename == Some(text)
            &&& set.io().log_filename
            &&& cleared.log_filename is None
            &&& !cleared.io().log_filename
            &&& context.log_filename is None ==> cleared == context
        }),
{
}

/// Settings that were loaded from a text without NUL characters are saved
/// as that very text.
pub proof fn lemma_settings_round_trip(text: Seq<char>)
    requires
        forall|i: int| 0 <= i < text.len() ==> text[i] != '\0',
    ensures
        c_text(encode_utf8(text)) == encode_utf8(text),
        valid_utf8(c_text(encode_utf8(text))),
        decode_utf8(c_text(encode_utf8(text))) == text,
{
    let bytes = encode_utf8(text);
    lemma_encoding_without_nul(text);
    lemma_c_len_is(bytes, bytes.len());
    assert(bytes.take(bytes.len() as int) =~= bytes);
    encode_utf8_valid_utf8(text);
    encode_utf8_decode_utf8(text);
}

} // verus!
