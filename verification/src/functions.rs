pub mod thread_store_max_page_size;
pub mod parse_remote_app_server_endpoint;
pub mod list_items_params_all_reverse;
pub mod list_threads_params_all_reverse;
pub mod page_stream;
pub mod editor_var_os;
pub mod markdown_parser_new;
