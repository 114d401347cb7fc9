use vstd::prelude::*;

verus! {

/// The viewer's window, over the platform's window and device-context
/// handle type `H`. Creating it, presenting and pumping events are the
/// platform layer's work; the input queries below are answered here.
pub struct Window<H> {
    wnd: H,
    dc: H,
}

impl<H> Window<H> {
    /// The window handle.
    pub closed spec fn window_handle(self) -> H {
        self.wnd
    }

    /// The device-context handle.
    pub closed spec fn device_context(self) -> H {
        self.dc
    }

    /// The window with handle `wnd` and device context `dc`.
    pub fn from_handles(wnd: H, dc: H) -> (w: Self)
        ensures
            w.window_handle() == wnd,
            w.device_context() == dc,
    {
        Window { wnd, dc }
    }

    /// The window handle.
    pub fn wnd(&self) -> (h: &H)
        ensures
            *h == self.window_handle(),
    {
        &self.wnd
    }

    /// The device-context handle.
    pub fn dc(&self) -> (h: &H)
        ensures
            *h == self.device_context(),
    {
        &self.dc
    }

    /// Whether the left mouse button is held: the window tracks no mouse
    /// buttons, so never.
    pub fn left_button(&self) -> (held: bool)
        ensures
            !held,
    {
        false
    }

    /// Whether the enter key is held: the window tracks no keys, so never.
    pub fn enter_key(&self) -> (held: bool)
        ensures
            !held,
    {
        false
    }

    /// Whether the up arrow is held: the window tracks no keys, so never.
    pub fn up_key(&self) -> (held: bool)
        ensures
            !held,
    {
        false
    }

    /// Whether the down arrow is held: the window tracks no keys, so never.
    pub fn down_key(&self) -> (held: bool)
        ensures
            !held,
    {
        false
    }
}

/// A value that is never made: its only field is private and this crate
/// builds none, so an error that carries one cannot exist.
#[derive(Debug)]
pub struct Impossible {
    never: (),
}

/// Failure to create the viewer window; creating the window never fails, so
/// its one variant carries an `Impossible`.
#[derive(Debug)]
pub enum WindowCreateError {
    Never(Impossible),
}

/// Failure to present the back buffer; presenting never fails, so its one
/// variant carries an `Impossible`.
#[derive(Debug)]
pub enum BufferSwapError {
    Never(Impossible),
}

/// Failure to pump the window's event queue; pumping never fails, so its one
/// variant carries an `Impossible`.
#[derive(Debug)]
pub enum EventCheckError {
    Never(Impossible),
}

} // verus!
