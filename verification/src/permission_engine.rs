use std::collections::HashMap;
use vstd::prelude::*;

verus! {

broadcast use vstd::std_specs::hash::group_hash_axioms;

/// Hardware and system API permission types.
#[derive(Debug, Clone, Copy, PartialEq, Eq, Structural)]
pub enum PermissionType {
    Bluetooth,
    WebRTC,
    USBDevice,
    NetworkSocket,
    CameraMicrophone,
}

/// The key under which the answer for a permission is stored.
pub open spec fn permission_code(perm: PermissionType) -> u8 {
    match perm {
        PermissionType::Bluetooth => 0,
        PermissionType::WebRTC => 1,
        PermissionType::USBDevice => 2,
        PermissionType::NetworkSocket => 3,
        PermissionType::CameraMicrophone => 4,
    }
}

impl PermissionType {
    /// The answer-table key of this permission.
    pub fn code(&self) -> (c: u8)
        ensures
            c == permission_code(*self),
    {
        match self {
            PermissionType::Bluetooth => 0,
            PermissionType::WebRTC => 1,
            PermissionType::USBDevice => 2,
            PermissionType::NetworkSocket => 3,
            PermissionType::CameraMicrophone => 4,
        }
    }

    /// Human-readable name shown in the consent dialog.
    pub fn display_name(&self) -> (name: &'static str)
        ensures
            name@ == permission_display_name(*self),
    {
        match self {
            PermissionType::Bluetooth => "Bluetooth Wireless Hardware",
            PermissionType::WebRTC => "WebRTC Real-time Audio/Video",
            PermissionType::USBDevice => "Direct USB Hardware Device",
            PermissionType::NetworkSocket => "Low-Level Network Socket Streaming",
            PermissionType::CameraMicrophone => "Camera & Microphone Access",
        }
    }
}

/// The dialog name of each permission.
pub open spec fn permission_display_name(perm: PermissionType) -> Seq<char> {
    match perm {
        PermissionType::Bluetooth => "Bluetooth Wireless Hardware"@,
        PermissionType::WebRTC => "WebRTC Real-time Audio/Video"@,
        PermissionType::USBDevice => "Direct USB Hardware Device"@,
        PermissionType::NetworkSocket => "Low-Level Network Socket Streaming"@,
        PermissionType::CameraMicrophone => "Camera & Microphone Access"@,
    }
}

/// Abstract state of the consent guard: the user's answers, keyed by
/// permission code, and the permission whose dialog is waiting, if any.
pub struct ConsentState {
    pub answers: Map<u8, bool>,
    pub pending: Option<PermissionType>,
}

impl ConsentState {
    /// The state right after start-up: nothing answered, no dialog.
    pub open spec fn initial() -> ConsentState {
        ConsentState { answers: Map::empty(), pending: None }
    }

    /// Whether the user has answered the dialog for `perm`.
    pub open spec fn answered(self, perm: PermissionType) -> bool {
        self.answers.contains_key(permission_code(perm))
    }

    /// Whether access to `perm` is granted: only an explicit "yes" grants it.
    pub open spec fn granted(self, perm: PermissionType) -> bool {
        self.answered(perm) && self.answers[permission_code(perm)]
    }

    /// Effect of asking for `perm`: a dialog is raised only for a permission
    /// that has not been answered yet.
    pub open spec fn request(self, perm: PermissionType) -> ConsentState {
        if self.answered(perm) {
            self
        } else {
            ConsentState { answers: self.answers, pending: Some(perm) }
        }
    }

    /// Effect of the user's answer for `perm`: it is recorded, and the
    /// dialog for `perm` is closed if it was the one waiting.
    pub open spec fn respond(self, perm: PermissionType, granted: bool) -> ConsentState {
        ConsentState {
            answers: self.answers.insert(permission_code(perm), granted),
            pending: if self.pending == Some(perm) {
                None
            } else {
                self.pending
            },
        }
    }

    /// A waiting dialog never asks about a permission that was already answered.
    pub open spec fn consistent(self) -> bool {
        match self.pending {
            Some(p) => !self.answered(p),
            None => true,
        }
    }
}

/// After the user answers a dialog, access is granted exactly when the
/// answer was yes.
pub proof fn lemma_answer_decides_access(s: ConsentState, perm: PermissionType, granted: bool)
    ensures
        s.respond(perm, granted).granted(perm) == granted,
        s.respond(perm, granted).answered(perm),
{
}

/// Answering one permission leaves the access to every other permission as it was.
pub proof fn lemma_answer_is_local(
    s: ConsentState,
    perm: PermissionType,
    other: PermissionType,
    granted: bool,
)
    requires
        perm != other,
    ensures
        s.respond(perm, granted).granted(other) == s.granted(other),
        s.respond(perm, granted).answered(other) == s.answered(other),
{
}

/// Asking for a permission never grants anything by itself: access comes
/// only from the user's answer.
pub proof fn lemma_request_grants_nothing(s: ConsentState, perm: PermissionType, any: PermissionType)
    ensures
        s.request(perm).granted(any) == s.granted(any),
        s.request(perm).answers == s.answers,
{
}

/// Nothing is granted before the user has answered anything.
pub proof fn lemma_initially_denied(perm: PermissionType)
    ensures
        !ConsentState::initial().granted(perm),
        ConsentState::initial().consistent(),
{
}

/// An answered permission is never asked again: requesting it changes nothing.
pub proof fn lemma_answered_not_asked_again(s: ConsentState, perm: PermissionType, granted: bool)
    ensures
        s.respond(perm, granted).request(perm) == s.respond(perm, granted),
{
}

/// Every operation keeps the waiting dialog about an unanswered permission.
pub proof fn lemma_consistency_preserved(
    s: ConsentState,
    perm: PermissionType,
    granted: bool,
)
    requires
        s.consistent(),
    ensures
        s.request(perm).consistent(),
        s.respond(perm, granted).consistent(),
{
}

/// Asking for an unanswered permission and then answering it closes the dialog.
pub proof fn lemma_request_then_answer_closes(s: ConsentState, perm: PermissionType, granted: bool)
    requires
        !s.answered(perm),
    ensures
        s.request(perm).pending == Some(perm),
        s.request(perm).respond(perm, granted).pending.is_none(),
        s.request(perm).respond(perm, granted).granted(perm) == granted,
{
}

/// Answering a permission other than the one waiting leaves the waiting
/// dialog open, whether the answer is yes or no; answering the waiting one
/// closes it.
pub proof fn lemma_answer_keeps_other_dialog(
    s: ConsentState,
    perm: PermissionType,
    waiting: PermissionType,
    granted: bool,
)
    ensures
        s.pending == Some(waiting) && perm != waiting ==> s.respond(perm, granted).pending == Some(
            waiting,
        ),
        s.pending == Some(perm) ==> s.respond(perm, granted).pending is None,
        s.pending is None ==> s.respond(perm, granted).pending is None,
{
}

/// Runtime end-user permission guard: hardware access is granted only after
/// explicit user consent; a denied subsystem stays disabled.
pub struct PermissionEngine {
    pub permissions: HashMap<u8, bool>,
    pub pending_prompt: Option<PermissionType>,
}

impl View for PermissionEngine {
    type V = ConsentState;

    open spec fn view(&self) -> ConsentState {
        ConsentState { answers: self.permissions@, pending: self.pending_prompt }
    }
}

impl PermissionEngine {
    /// A guard with no answers and no waiting dialog.
    pub fn new() -> (engine: Self)
        ensures
            engine@ == ConsentState::initial(),
    {
        PermissionEngine { permissions: HashMap::new(), pending_prompt: None }
    }

    /// Whether the end user granted `perm`; `false` while unanswered.
    pub fn is_granted(&self, perm: PermissionType) -> (granted: bool)
        ensures
            granted == self@.granted(perm),
            granted <==> (self.permissions@.contains_key(permission_code(perm))
                && self.permissions@[permission_code(perm)] == true),
    {
        let key = perm.code();
        match self.permissions.get(&key) {
            Some(answer) => *answer,
            None => false,
        }
    }

    /// Asks for `perm`, raising the consent dialog unless the user already answered.
    pub fn request_permission(&mut self, perm: PermissionType)
        ensures
            final(self)@ == old(self)@.request(perm),
            final(self).permissions@ == old(self).permissions@,
            !old(self).permissions@.contains_key(permission_code(perm)) ==> final(self).pending_prompt == Some(perm),
            old(self).permissions@.contains_key(permission_code(perm)) ==> final(self).pending_prompt == old(self).pending_prompt,
    {
        let key = perm.code();
        if !self.permissions.contains_key(&key) {
            self.pending_prompt = Some(perm);
        }
    }

    /// Records the user's answer to the dialog for `perm`.
    pub fn respond_permission(&mut self, perm: PermissionType, granted: bool)
        ensures
            final(self)@ == old(self)@.respond(perm, granted),
            final(self).pending_prompt != Some(perm),
            old(self).pending_prompt != Some(perm) ==> final(self).pending_prompt
                == old(self).pending_prompt,
            final(self).permissions@ == old(self).permissions@.insert(permission_code(perm), granted),
    {
        let key = perm.code();
        self.permissions.insert(key, granted);
        let closes = match self.pending_prompt {
            Some(p) => p == perm,
            None => false,
        };
        if closes {
            self.pending_prompt = None;
        }
    }
}

} // verus!
