//! Core logic of a data-table widget: page-number windows for the pagination
//! bar, and the text, style and currency suffix of each table cell.

mod cell;
mod download;
pub mod model;
mod pager;
mod pagination;
mod record;

pub use cell::{
    cell_tags, classify, format_cell, joined, style_class, style_tags, tag_name, tag_text, upper_of,
    FormattedCell, NumberSign, StyleTag,
};
pub use download::{button_label, download_file_name};
pub use model::{
    shown_text, string_text, suffix_text, DownloadDataRequest, Sorting, TableHeader,
};
pub use pager::{last_page, page_size_choices, Pagination};
pub use pagination::{
    generate_button_numbers, lemma_window_all_pages, lemma_window_shape, page_range, page_window,
    spec_total_pages, total_pages, window_end, window_start, MAX_BUTTONS,
};
pub use record::{field_of, lookup, FieldValue, Record};
