//! Client-side logic of a paste-sharing tool: choosing where the text comes
//! from, checking a custom share code, planning the single request to the
//! paste service, reading its reply and preparing what is shown to the user.

mod client;
mod code;
mod content;
mod error;
mod present;

pub use client::{
    api_url, api_url_of, has_scheme, is_success_status, lemma_blank_content_refused, paste_error,
    prepare_paste, settle_reply,
    ErrorPayload, PasteCall, PasteRequest, PasteResponse, Reply,
};
pub use code::{
    code_error, is_code_char, lemma_code_rules, validate_custom_code, MAX_CODE_LEN, MIN_CODE_LEN,
};
pub use content::{
    choose_source, default_editor, finish_editor, get_editor, has_content, is_blank, is_whitespace,
    Platform, Source,
};
pub use error::ClientError;
pub use present::{generate_qr_code, present, qr_text_of, Report};
