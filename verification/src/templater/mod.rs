//! The pages the sign-on endpoints show.

use vstd::prelude::*;
use crate::templater::error::TemplateResult;

pub mod error;

verus! {

/// Renders the pages. Nothing is asked of the text that comes back.
pub trait Templater {
    fn login_page(&self, client_id: &String, redirect_uri: &String) -> TemplateResult<String>;

    fn register_page(&self) -> TemplateResult<String>;

    fn resend_activation_page(&self, message: &String) -> TemplateResult<String>;
}

} // verus!
