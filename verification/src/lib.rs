//! The verified core of a Wayland screen magnifier.
//!
//! A screenshot is taken through the compositor ([`capture`], with the pixel formats of
//! [`shm`] converted by [`pixels`]) and shown in a window ([`window`]) that answers input
//! ([`viewer`]) and draws with OpenGL ([`program`], [`pipeline`], and the [`shaders`] with
//! their [`declarations`]). The command line ([`config`]) selects how to draw. The library
//! decides; the program around it talks to the compositor, the window system and the driver,
//! and computes zoom and position in floating point.

pub mod capture;
pub mod config;
pub mod declarations;
pub mod error;
pub mod pipeline;
pub mod pixels;
pub mod program;
pub mod shaders;
pub mod shm;
pub mod signed;
pub mod text;
pub mod viewer;
pub mod window;
