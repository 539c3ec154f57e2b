//! What the user interface asks of the settings: the credentials of the
//! providers and the length of the history.

use vstd::prelude::*;
use crate::settings::{AppSettings, AppSettingsView};
use crate::text::{clone_opt, opt_text};

verus! {

/// The credential that an input stands for: none where the input is empty.
pub open spec fn credential(input: Seq<char>) -> Option<Seq<char>> {
    if input.len() == 0 {
        None
    } else {
        Some(input)
    }
}

/// The credential that an input stands for: none where the input is empty.
pub fn credential_from(input: String) -> (api_key: Option<String>)
    ensures
        opt_text(api_key) == credential(input@),
{
    if input.as_str().is_empty() {
        None
    } else {
        Some(input)
    }
}

/// Sets the credential for Mistral; the empty text removes it.
pub fn set_mistral_api_key(settings: &mut AppSettings, api_key: String)
    ensures
        final(settings)@ == (AppSettingsView { mistral_api_key: credential(api_key@), ..old(settings)@ }),
{
    settings.mistral_api_key = credential_from(api_key);
}

/// A copy of the credential for Mistral, if one is set.
pub fn get_mistral_api_key(settings: &AppSettings) -> (api_key: Option<String>)
    ensures
        opt_text(api_key) == settings@.mistral_api_key,
{
    clone_opt(&settings.mistral_api_key)
}

/// Whether a credential for Mistral is set.
pub fn has_mistral_api_key(settings: &AppSettings) -> (set: bool)
    ensures
        set == settings@.mistral_api_key is Some,
{
    settings.mistral_api_key.is_some()
}

/// Sets the credential for Deepgram; the empty text removes it.
pub fn set_deepgram_api_key(settings: &mut AppSettings, api_key: String)
    ensures
        final(settings)@ == (AppSettingsView { deepgram_api_key: credential(api_key@), ..old(settings)@ }),
{
    settings.deepgram_api_key = credential_from(api_key);
}

/// A copy of the credential for Deepgram, if one is set.
pub fn get_deepgram_api_key(settings: &AppSettings) -> (api_key: Option<String>)
    ensures
        opt_text(api_key) == settings@.deepgram_api_key,
{
    clone_opt(&settings.deepgram_api_key)
}

/// Whether a credential for Deepgram is set.
pub fn has_deepgram_api_key(settings: &AppSettings) -> (set: bool)
    ensures
        set == settings@.deepgram_api_key is Some,
{
    settings.deepgram_api_key.is_some()
}

/// Sets the credential for AssemblyAI; the empty text removes it.
pub fn set_assemblyai_api_key(settings: &mut AppSettings, api_key: String)
    ensures
        final(settings)@ == (AppSettingsView { assemblyai_api_key: credential(api_key@), ..old(settings)@ }),
{
    settings.assemblyai_api_key = credential_from(api_key);
}

/// A copy of the credential for AssemblyAI, if one is set.
pub fn get_assemblyai_api_key(settings: &AppSettings) -> (api_key: Option<String>)
    ensures
        opt_text(api_key) == settings@.assemblyai_api_key,
{
    clone_opt(&settings.assemblyai_api_key)
}

/// Whether a credential for AssemblyAI is set.
pub fn has_assemblyai_api_key(settings: &AppSettings) -> (set: bool)
    ensures
        set == settings@.assemblyai_api_key is Some,
{
    settings.assemblyai_api_key.is_some()
}

/// Sets the number of transcriptions that the history keeps.
pub fn update_history_limit(settings: &mut AppSettings, limit: usize)
    ensures
        final(settings)@ == (AppSettingsView { history_limit: limit, ..old(settings)@ }),
{
    settings.history_limit = limit;
}

} // verus!
