//! Errors of BLE operations.

use vstd::prelude::*;
use vstd::string::StringExecFns;

verus! {

/// What can go wrong while talking to the lamp over BLE.
#[derive(Debug, Clone)]
pub enum BleError {
    /// No BLE adapter was found on the system.
    NoAdapter,
    /// Starting or stopping a scan failed.
    ScanFailed(String),
    /// No peripheral with the given address.
    PeripheralNotFound(String),
    /// No characteristic with the given UUID.
    CharacteristicNotFound(String),
    /// Not connected to any device.
    NotConnected,
    /// Already connected to a device; disconnect first.
    AlreadyConnected,
    /// Writing to a characteristic failed.
    WriteFailed(String),
    /// Disconnecting failed.
    DisconnectFailed(String),
    /// Connecting failed.
    ConnectFailed(String),
    /// Service discovery on the connected device failed.
    ServiceDiscoveryFailed(String),
    /// Generic internal error.
    Internal(String),
}

impl BleError {
    /// The user-facing message of the error.
    pub open spec fn spec_message(&self) -> Seq<char> {
        match self {
            BleError::NoAdapter => "没有找到 BLE 适配器"@,
            BleError::ScanFailed(m) => "BLE 扫描失败: "@ + m@,
            BleError::PeripheralNotFound(m) => "未找到设备: "@ + m@,
            BleError::CharacteristicNotFound(m) => "未找到特征值: "@ + m@,
            BleError::NotConnected => "未连接到任何设备"@,
            BleError::AlreadyConnected => "已经连接到一个设备，请先断开"@,
            BleError::WriteFailed(m) => "写入失败: "@ + m@,
            BleError::DisconnectFailed(m) => "断开连接失败: "@ + m@,
            BleError::ConnectFailed(m) => "连接失败: "@ + m@,
            BleError::ServiceDiscoveryFailed(m) => "服务发现失败: "@ + m@,
            BleError::Internal(m) => "内部错误: "@ + m@,
        }
    }

    /// The user-facing message of the error.
    pub fn message(&self) -> (s: String)
        ensures
            s@ == self.spec_message(),
    {
        match self {
            BleError::NoAdapter => String::from_str("没有找到 BLE 适配器"),
            BleError::ScanFailed(m) => {
                let mut s = String::from_str("BLE 扫描失败: ");
                s.append(m.as_str());
                s
            },
            BleError::PeripheralNotFound(m) => {
                let mut s = String::from_str("未找到设备: ");
                s.append(m.as_str());
                s
            },
            BleError::CharacteristicNotFound(m) => {
                let mut s = String::from_str("未找到特征值: ");
                s.append(m.as_str());
                s
            },
            BleError::NotConnected => String::from_str("未连接到任何设备"),
            BleError::AlreadyConnected => String::from_str("已经连接到一个设备，请先断开"),
            BleError::WriteFailed(m) => {
                let mut s = String::from_str("写入失败: ");
                s.append(m.as_str());
                s
            },
            BleError::DisconnectFailed(m) => {
                let mut s = String::from_str("断开连接失败: ");
                s.append(m.as_str());
                s
            },
            BleError::ConnectFailed(m) => {
                let mut s = String::from_str("连接失败: ");
                s.append(m.as_str());
                s
            },
            BleError::ServiceDiscoveryFailed(m) => {
                let mut s = String::from_str("服务发现失败: ");
                s.append(m.as_str());
                s
            },
            BleError::Internal(m) => {
                let mut s = String::from_str("内部错误: ");
                s.append(m.as_str());
                s
            },
        }
    }
}

} // verus!
