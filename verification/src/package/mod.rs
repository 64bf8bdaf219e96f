pub mod darwin;
pub mod model;
pub mod nix_eval;
pub mod traits;
pub mod util;

pub use darwin::Darwin;
pub use model::Package;
pub use traits::GetsJSON;
pub use util::string_from_std;
