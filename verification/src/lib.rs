//! kridtiler: a grid tiler for KWin. The library holds everything that the
//! command decides: the preset table, how a request resolves into a grid and a
//! rectangle of cells, the configuration's defaults, the filling-in of the
//! KWin script templates, the inbox of script results, and the text that the
//! command prints.
pub mod text;
pub mod preset;
pub mod config;
pub mod command;
pub mod script;
pub mod inbox;
pub mod plan;
pub mod monitors;
pub mod json;
