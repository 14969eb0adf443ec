pub mod long_url;

pub use long_url::LongUrl;
