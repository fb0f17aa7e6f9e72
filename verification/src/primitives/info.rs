//! Body of the info route.

use crate::program::ProgramInstanceResponse;
use vstd::prelude::*;

verus! {

#[derive(Debug)]
pub struct ServerInfoResponse {
    pub cpu: CpuInfo,
    pub memory: MemoryInfo,
    pub os: OsInfo,
    pub architecture: String,
    pub gpu: String,
    pub program_instances: Vec<ProgramInstanceResponse>,
}

#[derive(Debug)]
pub struct CpuInfo {
    pub model: String,
    pub cores: usize,
    pub frequency: u64,
    pub vendor: String,
}

#[derive(Debug)]
pub struct MemoryInfo {
    pub total: String,
    pub available: String,
    pub used: String,
}

#[derive(Debug)]
pub struct OsInfo {
    pub name: String,
    pub version: String,
    pub kernel: String,
}

} // verus!
