//! QA profiles and where they are kept.
pub mod types;
pub mod repository;
pub mod seed;

pub use types::{
    AreaCategory, CustomFieldType, CustomMetadataField, LinearProfileConfig, QaProfile,
    TitleConventions,
};

pub use repository::{InMemoryProfileRepository, ProfileRepository};
