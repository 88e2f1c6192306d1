pub mod json;
pub mod kvm;
pub mod kvm_helper;
