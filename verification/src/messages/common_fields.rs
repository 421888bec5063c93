//! Fields that several messages share.

pub mod common_device_fields;
pub mod common_file_fields;

pub use common_device_fields::{
    Alias, DeviceInfo, DeviceInfoView, DeviceModel, DeviceType, Fingerprint, Port, PreferDownload,
    Protocol, SessionId, Version,
};
pub use common_file_fields::{
    FileId, FileInfo, FileInfoView, FileMeta, FilePreview, FileUploadToken, FilesInfoMap,
    FilesTokenMap, SHA256,
};
