//! A minimal kernel-mode-setting display stack: enumeration of display
//! resources, a CPU-writable pixel surface mapped over a kernel dumb buffer,
//! drawing primitives, a border-only window compositor, and mouse-event
//! decoding. The device I/O itself (ioctl calls, opening device nodes) lives
//! outside this crate; this crate holds the decisions, the layouts and the
//! pixel arithmetic, each with its contract.

pub mod compositor;
pub mod drm;
pub mod gfx;
pub mod mouse;
pub mod surface;
