//! Opening Excel, Google Sheets and Office documents from a browser.
//!
//! Two programs are built on this library. The launcher runs beside Windows and
//! serves a page on which a prompt in Korean, or a button, opens a program or a
//! page. The bridge does the same from afar: its gateway serves the page on a
//! server, and passes each request on to its agent beside Windows.
//!
//! The library holds what the programs decide and write. Each of them reads a
//! request ([`http`]), asks [`launcher`], [`agent`] or [`gateway`] what to do
//! about it, does that, and hands the result back to learn what to answer. A
//! model may be asked what a prompt means ([`openai`]), or be allowed to use the
//! computer ([`computer`], [`device`]). Nothing in here touches a socket, a
//! file, a process or the environment.
//!
//! The contracts speak of text as sequences of characters ([`text`]). What the
//! parts promise is stated and proved in modules of their own:
//!
//! - [`text_laws`], [`encoding_laws`] and [`content_laws`] on text, on notations
//!   that are read back, and on the payloads and commands written in them;
//! - [`reading_laws`] and [`request_laws`] on what a request says and what becomes
//!   of it, and [`serving_laws`] on the programs together;
//! - [`action_laws`] on what is decided and opened, [`computer_laws`] on the use of
//!   the computer, and [`answer_laws`] on pages, answers and files;
//! - [`view_laws`] on what the values of the library stand for.

pub mod action_laws;
pub mod agent;
pub mod answer_laws;
pub mod bridge;
pub mod computer;
pub mod computer_laws;
pub mod content_laws;
pub mod device;
pub mod encoding_laws;
pub mod escape;
pub mod gateway;
pub mod http;
pub mod launcher;
pub mod number;
pub mod openai;
pub mod process;
pub mod reading_laws;
pub mod request_laws;
pub mod serving_laws;
pub mod temp;
pub mod text;
pub mod text_laws;
pub mod url;
pub mod view_laws;
pub mod windows;
