//! Limits and defaults of the installer tables.

use vstd::prelude::*;

verus! {

pub const CABINET_MAX_LEN: usize = 255;
pub const CONDITION_MAX_LEN: usize = 255;
pub const DEFAULT_DIR_MAX_LEN: usize = 255;
pub const DISK_PROMPT_MAX_LEN: usize = 64;
pub const FILENAME_MAX_LEN: usize = 255;
pub const GUID_MAX_LEN: usize = 38;
pub const DEFAULT_IDENTIFIER_MAX_LEN: usize = 72;
pub const LANGUAGE_MAX_LEN: usize = 20;
pub const SOURCE_MAX_LEN: usize = 72;
pub const VERSION_MAX_LEN: usize = 72;
pub const VOLUME_LABEL_MAX_LEN: usize = 32;
pub const TITLE_MAX_LEN: usize = 64;
pub const DESCRIPTION_MAX_LEN: usize = 255;
/// Property values have no length limit.
pub const PROPERTY_VALUE_MAX_LEN: usize = 0;
/// Registry values have no length limit.
pub const REGISTRY_VALUE_MAX_LEN: usize = 0;
pub const REGISTRY_NAME_MAX_LEN: usize = 255;
pub const REGPATH_MAX_LEN: usize = 255;
pub const SHORT_FILENAME_MAX_LEN: usize = 8;
pub const FEATURE_IDENTIFIER_MAX_LEN: usize = 38;
pub const LAST_SEQUENCE_MIN: usize = 0;
pub const LAST_SEQUENCE_MAX: usize = 32767;
pub const DISK_ID_MIN: usize = 1;
pub const DEFAULT_FEATURE_DISPLAY: i16 = 2;
pub const DEFAULT_FEATURE_LEVEL: i16 = 1;

} // verus!
