//! Terminal-emulator capability detection: pure, verified logic for probing
//! which terminal hosts the process, what graphics protocols it supports,
//! the cell size in pixels, and whether the background is light or dark.
//!
//! The surrounding application owns the raw-mode session and the byte-level
//! I/O; everything here operates on captured byte buffers and plain values.

mod brand;
mod cursor;
mod digits;
mod emit;
mod emulator;
mod parse;
mod probe;
mod reader;
mod scan;

pub use brand::brand_adapters;
pub use brand::from_csi_spec;
pub use brand::signature_of;
pub use brand::Adapter;
pub use brand::Brand;
pub use cursor::cursor_lock_epilogue;
pub use cursor::cursor_lock_prologue;
pub use cursor::epilogue_seq;
pub use cursor::hide_cursor;
pub use cursor::move_to_seq;
pub use cursor::needs_cursor_workaround;
pub use cursor::prologue_seq;
pub use cursor::push_move_to;
pub use cursor::restore_cursor;
pub use cursor::save_cursor;
pub use cursor::show_cursor;
pub use cursor::workaround_needed;
pub use digits::all_digits;
pub use digits::digit_end;
pub use digits::digits_value;
pub use digits::hex_digit;
pub use digits::hex_value;
pub use digits::is_ascii_digit;
pub use digits::is_hex_digit;
pub use digits::parse_u16_digits;
pub use digits::scan_digits;
pub use emit::dec_digits;
pub use emit::lemma_dec_digits_value;
pub use emit::push_dec;
pub use emit::push_slice;
pub use emulator::from_response_spec;
pub use emulator::kind_from;
pub use emulator::lemma_resort_fallback;
pub use emulator::lemma_signature_wins;
pub use emulator::lemma_unknown_kind;
pub use emulator::unknown_adapters;
pub use emulator::unknown_emulator;
pub use emulator::Emulator;
pub use emulator::Kind;
pub use emulator::Unknown;
pub use parse::bg_prefix;
pub use parse::cell_fields;
pub use parse::cell_size;
pub use parse::cell_size_prefix;
pub use parse::cell_size_spec;
pub use parse::channel_ok;
pub use parse::channel_value;
pub use parse::detect_kgp;
pub use parse::detect_sixel;
pub use parse::kgp_ack;
pub use parse::lemma_bg_report_luma;
pub use parse::lemma_cell_report_roundtrip;
pub use parse::lemma_missing_bg_report_is_dark;
pub use parse::light_bg;
pub use parse::light_bg_spec;
pub use parse::light_threshold;
pub use parse::scaled_luma;
pub use parse::sixel_sigs;
pub use parse::supports_kgp;
pub use parse::supports_sixel;
pub use probe::bg_query;
pub use probe::cell_size_query;
pub use probe::da1_query;
pub use probe::kgp_probe;
pub use probe::probe_burst;
pub use probe::probe_burst_seq;
pub use probe::version_query;
pub use reader::da1_terminated;
pub use reader::da1_terminated_spec;
pub use reader::dsr_not_ready;
pub use reader::dsr_ready;
pub use reader::dsr_terminated;
pub use reader::dsr_terminated_spec;
pub use reader::ends_with_seq;
pub use reader::esc_byte;
pub use reader::is_last_esc;
pub use scan::contains_bytes;
pub use scan::contains_seq;
pub use scan::ends_with_bytes;
pub use scan::find_bytes;
pub use scan::find_from;
pub use scan::matches_at;
