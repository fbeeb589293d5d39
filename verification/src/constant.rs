//! The engine's fixed sizes.

use vstd::prelude::*;

verus! {

/// Default multipart size (4MB)
pub const MULTIPART_SIZE: u32 = 4194304;

/// 默认并发数
pub const DEFAULT_CONCURRENCY: usize = 8;

} // verus!
