//! Control core of a media player.
//!
//! Two components make up the core. The binding resolver maps a key chord
//! (a full modifier set plus a primary key) to an abstract action through an
//! ordered binding list in which the first match wins. The playback
//! controller owns the authoritative playback state (paused, looping,
//! position, duration, dragging), turns user commands into engine seek and
//! pause requests, and folds the engine's asynchronous position reports back
//! into its state without letting them race a drag in progress.
//!
//! The decode and render engine and the desktop shell around it are
//! unverified collaborators: the controller hands them plain requests and
//! takes their answers as plain values.

pub mod key_bind;
pub mod player;
