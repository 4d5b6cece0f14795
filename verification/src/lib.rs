pub mod beast;
pub mod history;
pub mod live;
pub mod bits;
pub mod mode_ac;
pub mod mode_s;
pub mod rtlsdr;
pub mod sbs;
pub mod sparse_list;
pub mod tar1090;
pub mod text;
pub mod tracker;
pub mod types;
