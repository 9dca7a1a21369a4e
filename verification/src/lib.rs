//! The verified core of vaexcore studio: scenes and their compositor graphs,
//! capture and audio plans, render targets and performance budgets, the output
//! preflight and output jobs, the local API's rules for authorization, request
//! identity, clients and events, the suite protocol between the desktop apps,
//! Studio's requests to the Console app, and the integer arithmetic, colors and
//! image assets of the software renderer.

pub mod api;
pub mod audio;
pub mod backups;
pub mod capture;
pub mod compositor;
pub mod console;
pub mod events;
pub mod ids;
pub mod image_cache;
pub mod order;
pub mod output;
pub mod performance;
pub mod pipeline;
pub mod preflight;
pub mod profiles;
pub mod raster;
pub mod registry;
pub mod scene;
pub mod suite;
pub mod text;
