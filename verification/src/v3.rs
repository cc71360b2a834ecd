pub mod access_flag;
