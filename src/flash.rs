use vstd::prelude::*;

verus! {

/// What a one-shot notification holds.
pub ghost struct FlashView {
    pub kind: Seq<char>,
    pub message: Seq<char>,
}

/// A one-shot notification carried to the next rendering of the list page.
/// `kind` is `success` or `error`.
pub struct Flash {
    pub kind: String,
    pub message: String,
}

impl View for Flash {
    type V = FlashView;

    open spec fn view(&self) -> FlashView {
        FlashView { kind: self.kind@, message: self.message@ }
    }
}

pub open spec fn success_view(message: Seq<char>) -> FlashView {
    FlashView { kind: "success"@, message }
}

pub open spec fn error_view(message: Seq<char>) -> FlashView {
    FlashView { kind: "error"@, message }
}

/// The contents of an optional notification.
pub open spec fn flash_of(f: Option<Flash>) -> Option<FlashView> {
    match f {
        Some(x) => Some(x@),
        None => None,
    }
}

/// The session after `f` was stored; whatever was pending is gone.
pub open spec fn stored(f: FlashView) -> Option<FlashView> {
    Some(f)
}

/// The notification that reading a session hands out.
pub open spec fn shown(s: Option<FlashView>) -> Option<FlashView> {
    s
}

/// The session after it was read: nothing is pending.
pub open spec fn cleared(s: Option<FlashView>) -> Option<FlashView> {
    None
}

impl Flash {
    pub fn success(message: &str) -> (r: Flash)
        ensures
            r@ == success_view(message@),
    {
        Flash { kind: "success".to_owned(), message: message.to_owned() }
    }

    pub fn error(message: &str) -> (r: Flash)
        ensures
            r@ == error_view(message@),
    {
        Flash { kind: "error".to_owned(), message: message.to_owned() }
    }
}

/// The per-client session state that travels in the signed cookie: at most
/// one pending notification.
pub struct Session {
    pub flash: Option<Flash>,
}

impl View for Session {
    type V = Option<FlashView>;

    open spec fn view(&self) -> Option<FlashView> {
        flash_of(self.flash)
    }
}

impl Session {
    /// A session with nothing pending.
    pub fn new() -> (r: Session)
        ensures
            r@ == None::<FlashView>,
    {
        Session { flash: None }
    }

    /// Stores `flash`, replacing any notification not yet read.
    pub fn set_flash(&mut self, flash: Flash)
        ensures
            final(self)@ == stored(flash@),
    {
        self.flash = Some(flash);
    }

    /// Hands out the pending notification, if any, and removes it.
    pub fn read_and_clear_flash(&mut self) -> (r: Option<Flash>)
        ensures
            flash_of(r) == shown(old(self)@),
            final(self)@ == cleared(old(self)@),
    {
        let r = self.flash.take();
        r
    }
}

} // verus!
