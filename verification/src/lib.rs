//! Session logic of a windowed Amiga emulator front end.

pub mod actions;
pub mod analyzer;
pub mod analyzer_pages;
pub mod answers;
pub mod app;
pub mod beam_figures;
pub mod breaks;
pub mod captures;
pub mod captures_laws;
pub mod clipboard;
pub mod command;
pub mod command_laws;
pub mod console;
pub mod console_laws;
pub mod console_page;
pub mod controls;
pub mod desk;
pub mod dialog;
pub mod dumps;
pub mod effects;
pub mod entry;
pub mod fascia;
pub mod frame_laws;
pub mod gdb;
pub mod gdb_breaks;
pub mod gdb_laws;
pub mod gdb_session;
pub mod gdb_wire;
pub mod guest;
pub mod hunt;
pub mod inspector_keys;
pub mod inspector_laws;
pub mod keys;
pub mod launcher;
pub mod lexicon;
pub mod listing_laws;
pub mod machine;
pub mod memedit;
pub mod memory;
pub mod menu;
pub mod menu_actions;
pub mod menu_laws;
pub mod menu_state;
pub mod nav;
pub mod netplay;
pub mod netplay_events;
pub mod netplay_laws;
pub mod netplay_steps;
pub mod number;
pub mod osd;
pub mod page_laws;
pub mod pages;
pub mod power;
pub mod preferences;
pub mod prompt;
pub mod reading_laws;
pub mod report;
pub mod report_laws;
pub mod saves;
pub mod session;
pub mod session_laws;
pub mod sheets;
pub mod states;
pub mod text;
pub mod tool_window;
pub mod tools;
pub mod typing_laws;
pub mod ui;
pub mod views_laws;
pub mod walking_laws;
pub mod warp;
pub mod workspace;
pub mod workspace_laws;
