//! A verified core for a retained-mode 2D drawing runtime.
//!
//! The crate models the frame lifecycle of a canvas application: coordinate
//! scaling between physical and logical pixels, the per-frame draw-item
//! accumulator with deterministic z-ordering, the input-event queue, the
//! cross-thread task scheduler with its shared state store, and the GPU
//! surface configuration. The GPU device itself and the windowing loop live
//! outside this crate; they drive the frame driver defined here and receive
//! plain, fully resolved draw items back.

pub mod app;
pub mod context;
pub mod events;
pub mod geometry;
pub mod items;
pub mod scheduler;
pub mod state;
pub mod surface;

pub use app::{CanvasApp, CanvasAppTrait};
pub use context::CanvasContext;
pub use events::{Event, EventQueue, Key, KeyboardEvent, KeyboardState, MouseEvent, MouseState,
    NamedKey};
pub use geometry::Size;
pub use items::{Area, CanvasItem, Color, Image, ResolvedArea, Shape, Text};
pub use scheduler::{Callback, PendingTask, Scheduler};
pub use state::{State, StateCommand};
pub use surface::SurfaceManager;
