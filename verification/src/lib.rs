//! Verified control core of a tray-icon window toggler.
//!
//! The library models the decisions of a small desktop utility: find or
//! launch the volume-mixer process, discover its top-level window with a
//! bounded retry, bind that window to a hidden event window, and toggle the
//! window's visibility and position from tray-icon clicks until a right
//! click ends the event loop and the owned resources are torn down in order.
//!
//! Every operating-system effect (process creation, window enumeration,
//! message retrieval, the shell icon) is performed by the surrounding
//! platform layer; the layer hands the results in as plain values
//! (snapshots, handles, success flags) and carries the returned plans out.
//! Everything the library itself computes is verified.

pub mod binding;
pub mod bytes;
pub mod geometry;
pub mod handle;
pub mod locator;
pub mod process;
pub mod process_table;
pub mod session;
pub mod tray;
