pub mod cmdline_args;
