pub mod builder;
pub mod checker;
pub mod cleaner;
pub mod copier;
pub mod downloader;
pub mod package;
pub mod packager;
pub mod release;
pub mod renamer;
pub mod setup;
pub mod starter;
pub mod tentative;
pub mod tester;
