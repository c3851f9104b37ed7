pub mod error;
pub mod json;
pub mod request;
pub mod response;

pub use error::GqlError;
pub use json::to_json_string;
pub use json::JsonValue;
pub use request::build_body;
pub use request::Variables;
pub use response::decode_result;
pub use response::extract_data;
