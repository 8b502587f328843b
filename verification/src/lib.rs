//! Verified core logic of the Tachyomancer circuit-puzzle game and of its
//! Tachyoscope score server: score-graph axes, the paragraph format
//! language, circuit selection editing and reorientation, the layouts and
//! input decisions of the game's views (simulation controls, selection
//! buttons, bounds handles, camera, the editing grid's keys and mouse
//! buttons, conversations, the new-commander screen, preferences), and the
//! server's solution bookkeeping.

pub mod text;
pub mod graph;
pub mod geom;
pub mod wires;
pub mod select;
pub mod reorient;
pub mod paragraph;
pub mod chipedit;
pub mod scores;
pub mod hotkey;
pub mod controls;
pub mod manip;
pub mod bounds;
pub mod camera;
pub mod background;
pub mod converse;
pub mod begin;
pub mod prefs;
pub mod dialog;
pub mod lists;
pub mod chip;
pub mod circuit;
pub mod menu;
pub mod nav;
pub mod puzzles;
pub mod tooltip;
pub mod gridedit;
