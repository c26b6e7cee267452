//! State and layout rules of a terminal emulator's window: tabs, hosts, settings
//! forms, pop-ups and the text that goes into their cells.
pub mod backup;
pub mod boot;
pub mod cells;
pub mod color;
pub mod config;
pub mod connect;
pub mod display;
pub mod fields;
pub mod fonts;
pub mod frame;
pub mod fx;
pub mod hints;
pub mod hosts;
pub mod hosts_ui;
pub mod ime;
pub mod keymap;
pub mod lang;
pub mod launcher;
pub mod logos;
pub mod look;
pub mod menus;
pub mod modal;
pub mod motion;
pub mod page;
pub mod pane;
pub mod panels;
pub mod popup;
pub mod prefs;
pub mod providers;
pub mod proxy;
pub mod rename;
pub mod settings;
pub mod shells;
pub mod slots;
pub mod sync;
pub mod tabs;
pub mod text;
pub mod theme;
pub mod update;
pub mod view;
pub mod words;
