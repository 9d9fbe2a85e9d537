//! Requests from the DevNet service (check or pull a player's pearl) and how the bot
//! answers them.

use vstd::prelude::*;
use vstd::string::*;

verus! {

/// A request received from the service.
#[derive(Debug)]
pub enum DevnetRequest {
    /// Whether the player (by uuid) has a pearl here.
    Check { destination: String, for_mc_id: u128 },
    /// Pull the player's pearl.
    Pull { destination: String, pearl_index: i32, for_mc_id: u128 },
    /// Anything else (the service's other messages).
    Other,
}

/// What the bot does about a request.
#[derive(Debug)]
pub enum DevnetAction {
    Nothing,
    /// Tell the player this (as an error, or not).
    Feedback { for_mc_id: u128, error: bool, message: String },
    /// Answer a check: one pearl (an empty object) where `has_pearl`, else none.
    CheckResponse { for_mc_id: u128, has_pearl: bool },
    /// Pull the pearl of `sender`, reporting back to the player.
    Pull { sender: String, for_mc_id: u128 },
}

/// An action as values.
pub enum DevnetActionView {
    Nothing,
    Feedback(u128, bool, Seq<char>),
    CheckResponse(u128, bool),
    Pull(Seq<char>, u128),
}

impl View for DevnetAction {
    type V = DevnetActionView;

    open spec fn view(&self) -> DevnetActionView {
        match self {
            DevnetAction::Nothing => DevnetActionView::Nothing,
            DevnetAction::Feedback { for_mc_id, error, message } => DevnetActionView::Feedback(*for_mc_id, *error, message@),
            DevnetAction::CheckResponse { for_mc_id, has_pearl } => DevnetActionView::CheckResponse(*for_mc_id, *has_pearl),
            DevnetAction::Pull { sender, for_mc_id } => DevnetActionView::Pull(sender@, *for_mc_id),
        }
    }
}

/// The answer to a request: without the stasis module, an error for checks and pulls;
/// else, where the tab list knows no name for the player (`sender`), an error asking
/// them to be online; else the check's answer (`has_pearl`) or the pull.
pub open spec fn spec_devnet_action(
    stasis_enabled: bool,
    request: DevnetRequest,
    sender: Option<Seq<char>>,
    has_pearl: bool,
) -> DevnetActionView {
    match request {
        DevnetRequest::Other => DevnetActionView::Nothing,
        DevnetRequest::Check { for_mc_id, .. } => if !stasis_enabled {
            DevnetActionView::Feedback(for_mc_id, true, "Stasis is not enabled!"@)
        } else {
            match sender {
                None => DevnetActionView::Feedback(for_mc_id, true,
                    "You need to be online for me to know your username and check your pearl!"@),
                Some(_) => DevnetActionView::CheckResponse(for_mc_id, has_pearl),
            }
        },
        DevnetRequest::Pull { for_mc_id, .. } => if !stasis_enabled {
            DevnetActionView::Feedback(for_mc_id, true, "Stasis is not enabled!"@)
        } else {
            match sender {
                None => DevnetActionView::Feedback(for_mc_id, true,
                    "You need to be online for me to know your username and pull your pearl!"@),
                Some(s) => DevnetActionView::Pull(s, for_mc_id),
            }
        },
    }
}

/// Decides the answer to a request (see `spec_devnet_action`).
pub fn devnet_action(stasis_enabled: bool, request: &DevnetRequest, sender: Option<&str>, has_pearl: bool) -> (r: DevnetAction)
    ensures
        r@ == spec_devnet_action(stasis_enabled, *request, match sender { Some(s) => Some(s@), None => None }, has_pearl),
{
    match request {
        DevnetRequest::Other => DevnetAction::Nothing,
        DevnetRequest::Check { for_mc_id, .. } => {
            if !stasis_enabled {
                DevnetAction::Feedback { for_mc_id: *for_mc_id, error: true, message: String::from_str("Stasis is not enabled!") }
            } else {
                match sender {
                    None => DevnetAction::Feedback {
                        for_mc_id: *for_mc_id,
                        error: true,
                        message: String::from_str("You need to be online for me to know your username and check your pearl!"),
                    },
                    Some(_) => DevnetAction::CheckResponse { for_mc_id: *for_mc_id, has_pearl },
                }
            }
        },
        DevnetRequest::Pull { for_mc_id, .. } => {
            if !stasis_enabled {
                DevnetAction::Feedback { for_mc_id: *for_mc_id, error: true, message: String::from_str("Stasis is not enabled!") }
            } else {
                match sender {
                    None => DevnetAction::Feedback {
                        for_mc_id: *for_mc_id,
                        error: true,
                        message: String::from_str("You need to be online for me to know your username and pull your pearl!"),
                    },
                    Some(s) => DevnetAction::Pull { sender: String::from_str(s), for_mc_id: *for_mc_id },
                }
            }
        },
    }
}

/// Every request is answered to the player it is for; with the stasis module on and the
/// player's name known, a check reports whether they have a pearl and a pull pulls the
/// pearl of that player by name; a pearl is pulled in no other case.
pub proof fn law_devnet_answers_the_player(stasis_enabled: bool, request: DevnetRequest, sender: Option<Seq<char>>, has_pearl: bool)
    ensures
        ({
            let a = spec_devnet_action(stasis_enabled, request, sender, has_pearl);
            &&& request matches DevnetRequest::Check { for_mc_id, .. } ==> (match a {
                DevnetActionView::Feedback(id, err, _) => id == for_mc_id && err && !(stasis_enabled && sender is Some),
                DevnetActionView::CheckResponse(id, h) => id == for_mc_id && h == has_pearl && stasis_enabled && sender is Some,
                _ => false,
            })
            &&& request matches DevnetRequest::Pull { for_mc_id, .. } ==> (match a {
                DevnetActionView::Feedback(id, err, _) => id == for_mc_id && err && !(stasis_enabled && sender is Some),
                DevnetActionView::Pull(name, id) => id == for_mc_id && stasis_enabled && sender == Some(name),
                _ => false,
            })
            &&& a is Pull ==> request is Pull
            &&& request is Other ==> a is Nothing
        }),
{
}

} // verus!
