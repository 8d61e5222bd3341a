use vstd::prelude::*;
use vstd::string::StringExecFns;

verus! {

/// The link mailed to a user: the base URL, the activation path, then the
/// code.
pub open spec fn activation_url_spec(base_url: Seq<char>, activation_code: Seq<char>) -> Seq<char> {
    base_url + "/activate?code="@ + activation_code
}

pub fn get_activation_url(base_url: &String, activation_code: &String) -> (url: String)
    ensures
        url@ == activation_url_spec(base_url@, activation_code@),
{
    base_url.clone().concat("/activate?code=").concat(activation_code.as_str())
}

/// The text of the activation mail: one line of greeting, then the link.
pub open spec fn activation_mail_text_spec(activation_url: Seq<char>) -> Seq<char> {
    "Here is your activation code!\n"@ + activation_url
}

pub fn activation_mail_text(activation_url: &String) -> (text: String)
    ensures
        text@ == activation_mail_text_spec(activation_url@),
{
    "Here is your activation code!\n".to_owned().concat(activation_url.as_str())
}

/// The subject of the activation mail.
pub fn activation_mail_subject() -> (subject: &'static str)
    ensures
        subject@ == "Activation code"@,
{
    "Activation code"
}

} // verus!
