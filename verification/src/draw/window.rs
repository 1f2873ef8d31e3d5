use vstd::prelude::*;
use crate::draw::Status;

verus! {

/// An event delivered by the compositor on the layer surface.
#[derive(PartialEq, Eq, Structural, Clone, Copy, Debug)]
pub enum LayerSurfaceEvent {
    /// The compositor grants a size and expects an acknowledgment.
    Configure { width: u32, height: u32, serial: u32 },
    /// The compositor asks the surface to go away.
    Closed,
    /// Any event this design recognizes but ignores.
    Other,
}

/// Why a surface could not be assembled.
#[derive(PartialEq, Eq, Clone, Debug)]
pub enum WindowError {
    /// The compositor granted a size other than the one requested; the
    /// session treats its configured size as fixed, so this is fatal.
    SizeMismatch { requested_width: u32, requested_height: u32, granted_width: u32, granted_height: u32 },
    /// The compositor closed the surface before it was ever configured.
    ClosedBeforeConfigure,
    /// No configure acknowledgment arrived before the first commit was due.
    NoConfigure,
    /// A connection or round-trip failure, wrapped with its cause.
    Todo(String),
}

/// The negotiated presentation surface: the requested geometry, the
/// compositor's acknowledged configuration, and whether the surface has been
/// committed and is still alive.
#[derive(PartialEq, Eq, Clone, Debug)]
pub struct Window {
    /// Width requested from the compositor, in pixels.
    pub width: u32,
    /// Height requested from the compositor, in pixels.
    pub height: u32,
    /// Margin above the surface, in pixels.
    pub offset_top: i32,
    /// Margin left of the surface, in pixels.
    pub offset_left: i32,
    /// The serial of the acknowledged configure event, once one arrived.
    pub configured_serial: Option<u32>,
    /// Whether the surface contents have been committed to the compositor.
    pub committed: bool,
    /// Whether the surface object still exists compositor-side.
    pub alive: bool,
}

impl Window {
    /// A fully negotiated surface: configured by the compositor (which, by
    /// construction, granted exactly the requested size), committed, and not
    /// yet destroyed.
    pub open spec fn wf(self) -> bool {
        &&& self.configured_serial is Some
        &&& self.committed
        &&& self.alive
    }

    /// Negotiates a surface of the given size and placement with the
    /// compositor. The connection, registry synchronization, and round-trips
    /// happen at the process edge; the compositor's answer on the layer
    /// surface arrives here as `reply`. A granted size differing from the
    /// requested one is fatal, by current policy, before any GPU resource
    /// exists; a close before configuration is fatal too; any other reply
    /// means the configure acknowledgment never arrived. A `Closed` reply
    /// also moves the shutdown status to `Closing`.
    pub fn spawn(
        width: u32,
        height: u32,
        offset_top: i32,
        offset_left: i32,
        reply: LayerSurfaceEvent,
        status: &mut Status,
    ) -> (r: Result<Window, WindowError>)
        ensures
            (reply matches LayerSurfaceEvent::Configure { width: gw, height: gh, serial }
                && gw == width && gh == height) <==> r is Ok,
            r matches Ok(w) ==> {
                &&& w.width == width
                &&& w.height == height
                &&& w.offset_top == offset_top
                &&& w.offset_left == offset_left
                &&& w.configured_serial matches Some(s) && reply matches LayerSurfaceEvent::Configure { serial, .. } && s == serial
                &&& w.committed
                &&& w.alive
                &&& w.wf()
            },
            reply matches LayerSurfaceEvent::Configure { width: gw, height: gh, .. }
                ==> (gw != width || gh != height)
                ==> r == Result::<Window, WindowError>::Err(WindowError::SizeMismatch {
                    requested_width: width,
                    requested_height: height,
                    granted_width: gw,
                    granted_height: gh,
                }),
            reply is Closed ==> r == Result::<Window, WindowError>::Err(WindowError::ClosedBeforeConfigure),
            reply is Other ==> r == Result::<Window, WindowError>::Err(WindowError::NoConfigure),
            *final(status) == (if reply is Closed { Status::Closing } else { *old(status) }),
    {
        match reply {
            LayerSurfaceEvent::Configure { width: granted_width, height: granted_height, serial } => {
                if granted_width != width || granted_height != height {
                    Err(WindowError::SizeMismatch {
                        requested_width: width,
                        requested_height: height,
                        granted_width,
                        granted_height,
                    })
                } else {
                    // The acknowledgment and the commit are wire traffic; the
                    // surface state records that both are owed and done.
                    Ok(Window {
                        width,
                        height,
                        offset_top,
                        offset_left,
                        configured_serial: Some(serial),
                        committed: true,
                        alive: true,
                    })
                }
            },
            LayerSurfaceEvent::Closed => {
                crate::draw::handle_closed(status);
                Err(WindowError::ClosedBeforeConfigure)
            },
            LayerSurfaceEvent::Other => Err(WindowError::NoConfigure),
        }
    }

    /// Destroys the surface object; the destroy request itself is wire
    /// traffic flushed by a final round-trip at the process edge.
    pub fn destroy(&mut self)
        ensures
            !(*final(self)).alive,
            *final(self) == (Window { alive: false, ..*old(self) }),
    {
        self.alive = false;
    }
}

} // verus!
