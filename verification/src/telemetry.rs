//! The two halves of what an agent reports: the static profile, read once
//! at start, and the dynamic snapshot, read on every tick. Both are built
//! here from raw host readings.

use crate::clock::{utc_now, Timestamp};
use crate::ident::{get_boot_id, is_random_uuid_text};
use crate::net::{
    mac_addresses, mac_texts, readings_of, received_total, totals_fit, traffic_totals,
    transmitted_total, InterfaceReading, InterfaceReadingView,
};
use crate::robot_type::{ProbeResults, ProbeResultsView, RobotType};
use crate::text::{contains, contains_text, text_of, texts_of, trimmed};
use vstd::prelude::*;

verus! {

/// Version of the agent, as reported in the static profile.
pub const AGENT_VERSION: &'static str = "1.0.0";

/// Placeholder for a text that could not be read.
pub const UNKNOWN: &'static str = "unknown";

/// Number of servos of the mobile base.
pub const SERVO_COUNT_LEKIWI: usize = 9;

/// Bytes in a mebibyte.
pub const BYTES_PER_MB: u64 = 1_048_576;

/// Bytes in a gibibyte.
pub const BYTES_PER_GB: u64 = 1_073_741_824;

/// Pattern of the process search that finds a running video pipeline.
pub const VIDEO_PROCESS_PATTERN: &'static str = "camera|stream|gstreamer|v4l2";

/// Pattern of the process search that finds a running teleoperation.
pub const TELEOP_PROCESS_PATTERN: &'static str = "ros2|teleop|joy_node";

/// Identity and hardware facts of the robot. Set once when the agent
/// starts.
#[derive(Clone, Debug, PartialEq, Eq)]
pub struct SystemInfo {
    pub robot_id: String,
    pub robot_type: RobotType,
    pub hostname: String,
    pub kernel_version: String,
    pub cpu_model: String,
    pub cpu_cores: usize,
    pub total_memory_mb: u64,
    pub total_disk_gb: u64,
    pub mac_addresses: Vec<String>,
    pub pi_version: String,
    pub agent_version: String,
}

/// Mathematical content of a [`SystemInfo`].
pub struct SystemInfoView {
    pub robot_id: Seq<char>,
    pub robot_type: RobotType,
    pub hostname: Seq<char>,
    pub kernel_version: Seq<char>,
    pub cpu_model: Seq<char>,
    pub cpu_cores: nat,
    pub total_memory_mb: nat,
    pub total_disk_gb: nat,
    pub mac_addresses: Seq<Seq<char>>,
    pub pi_version: Seq<char>,
    pub agent_version: Seq<char>,
}

impl View for SystemInfo {
    type V = SystemInfoView;

    open spec fn view(&self) -> SystemInfoView {
        SystemInfoView {
            robot_id: self.robot_id@,
            robot_type: self.robot_type,
            hostname: self.hostname@,
            kernel_version: self.kernel_version@,
            cpu_model: self.cpu_model@,
            cpu_cores: self.cpu_cores as nat,
            total_memory_mb: self.total_memory_mb as nat,
            total_disk_gb: self.total_disk_gb as nat,
            mac_addresses: texts_of(self.mac_addresses@),
            pi_version: self.pi_version@,
            agent_version: self.agent_version@,
        }
    }
}

/// Raw facts about the host, as read once at start. A text that could not
/// be read is absent.
#[derive(Clone, Debug, PartialEq, Eq)]
pub struct HostReadings {
    pub hostname: Option<String>,
    pub kernel_version: Option<String>,
    /// Brand of each logical CPU.
    pub cpu_brands: Vec<String>,
    pub total_memory_bytes: u64,
    /// Capacity of each disk, in bytes.
    pub disk_sizes: Vec<u64>,
    pub interfaces: Vec<InterfaceReading>,
    /// The board's model text from the device tree.
    pub board_model: Option<String>,
}

/// Mathematical content of a [`HostReadings`].
pub struct HostReadingsView {
    pub hostname: Option<Seq<char>>,
    pub kernel_version: Option<Seq<char>>,
    pub cpu_brands: Seq<Seq<char>>,
    pub total_memory_bytes: nat,
    pub disk_sizes: Seq<u64>,
    pub interfaces: Seq<InterfaceReadingView>,
    pub board_model: Option<Seq<char>>,
}

impl View for HostReadings {
    type V = HostReadingsView;

    open spec fn view(&self) -> HostReadingsView {
        HostReadingsView {
            hostname: text_of(self.hostname),
            kernel_version: text_of(self.kernel_version),
            cpu_brands: texts_of(self.cpu_brands@),
            total_memory_bytes: self.total_memory_bytes as nat,
            disk_sizes: self.disk_sizes@,
            interfaces: readings_of(self.interfaces@),
            board_model: text_of(self.board_model),
        }
    }
}

/// The text, or the placeholder where it is absent.
pub open spec fn or_unknown(text: Option<Seq<char>>) -> Seq<char> {
    match text {
        Some(t) => t,
        None => UNKNOWN@,
    }
}

/// The board generation that a device-tree model text stands for.
pub open spec fn pi_version_of(model: Option<Seq<char>>) -> Seq<char> {
    match model {
        Some(m) => if contains_text(m, "Pi 5"@) {
            "Raspberry Pi 5"@
        } else if contains_text(m, "Pi 4"@) {
            "Raspberry Pi 4"@
        } else {
            "Unknown Pi"@
        },
        None => "Unknown Pi"@,
    }
}

/// The capacity of all disks together, each counted in whole gibibytes.
pub open spec fn disks_total_gb(sizes: Seq<u64>) -> nat
    decreases sizes.len(),
{
    if sizes.len() == 0 {
        0
    } else {
        disks_total_gb(sizes.drop_last()) + (sizes.last() / BYTES_PER_GB) as nat
    }
}

/// The static profile that the readings stand for.
pub open spec fn system_profile(
    robot_id: Seq<char>,
    probes: ProbeResultsView,
    host: HostReadingsView,
) -> SystemInfoView {
    SystemInfoView {
        robot_id,
        robot_type: probes.classify(),
        hostname: or_unknown(host.hostname),
        kernel_version: or_unknown(host.kernel_version),
        cpu_model: if host.cpu_brands.len() > 0 {
            host.cpu_brands[0]
        } else {
            UNKNOWN@
        },
        cpu_cores: host.cpu_brands.len(),
        total_memory_mb: host.total_memory_bytes / (BYTES_PER_MB as nat),
        total_disk_gb: disks_total_gb(host.disk_sizes),
        mac_addresses: mac_texts(host.interfaces),
        pi_version: pi_version_of(host.board_model),
        agent_version: AGENT_VERSION@,
    }
}

fn text_or_unknown(text: Option<String>) -> (out: String)
    ensures
        out@ == or_unknown(text_of(text)),
{
    match text {
        Some(t) => t,
        None => UNKNOWN.to_owned(),
    }
}

/// Names the board generation from the model text of the device tree.
pub fn detect_pi_version(model: &Option<String>) -> (version: String)
    ensures
        version@ == pi_version_of(text_of(*model)),
{
    if let Some(m) = model {
        if contains(m.as_str(), "Pi 5") {
            return "Raspberry Pi 5".to_owned();
        } else if contains(m.as_str(), "Pi 4") {
            return "Raspberry Pi 4".to_owned();
        }
    }
    "Unknown Pi".to_owned()
}

/// Adds up the capacity of the disks, each counted in whole gibibytes.
pub fn total_disk_gb(sizes: &Vec<u64>) -> (total: u128)
    ensures
        total == disks_total_gb(sizes@),
{
    let mut total: u128 = 0;
    let mut k: usize = 0;
    while k < sizes.len()
        invariant
            k <= sizes.len(),
            total == disks_total_gb(sizes@.take(k as int)),
            total <= k * 0xFFFF_FFFF_FFFF_FFFF,
        decreases sizes.len() - k,
    {
        proof {
            assert(sizes@.take(k + 1).drop_last() =~= sizes@.take(k as int));
            assert(sizes@.take(k + 1).last() == sizes@[k as int]);
        }
        total = total + (sizes[k] / BYTES_PER_GB) as u128;
        k = k + 1;
    }
    assert(sizes@.take(sizes.len() as int) =~= sizes@);
    total
}

/// Decides whether the capacity of all disks together fits the 64-bit
/// field of the profile.
pub fn disks_fit(sizes: &Vec<u64>) -> (ok: bool)
    ensures
        ok == (disks_total_gb(sizes@) <= u64::MAX),
{
    total_disk_gb(sizes) <= 0xFFFF_FFFF_FFFF_FFFF
}

/// Builds the static profile from the probes and the host readings. The
/// robot is classified once, here. A text that could not be read becomes
/// its placeholder; nothing makes the operation fail.
pub fn collect_system_info(robot_id: String, probes: &ProbeResults, host: HostReadings) -> (info:
    SystemInfo)
    requires
        disks_total_gb(host.disk_sizes@) <= u64::MAX,
    ensures
        info@ == system_profile(robot_id@, probes@, host@),
{
    let robot_type = RobotType::detect(probes);
    let cpu_model = if host.cpu_brands.len() > 0 {
        host.cpu_brands[0].clone()
    } else {
        UNKNOWN.to_owned()
    };
    let cpu_cores = host.cpu_brands.len();
    let total_disk_gb = total_disk_gb(&host.disk_sizes) as u64;
    let mac_addresses = mac_addresses(&host.interfaces);
    let pi_version = detect_pi_version(&host.board_model);
    SystemInfo {
        robot_id,
        robot_type,
        hostname: text_or_unknown(host.hostname),
        kernel_version: text_or_unknown(host.kernel_version),
        cpu_model,
        cpu_cores,
        total_memory_mb: host.total_memory_bytes / BYTES_PER_MB,
        total_disk_gb,
        mac_addresses,
        pi_version,
        agent_version: AGENT_VERSION.to_owned(),
    }
}

/// A point-in-time reading of the robot. Readings that are fractional on
/// the wire are held as the IEEE 754 bit pattern of the number: this
/// library moves them and never computes with them.
#[derive(Clone, Debug, PartialEq, Eq)]
pub struct DynamicInfo {
    /// When the reading was taken.
    pub timestamp: Timestamp,
    pub uptime_seconds: u64,
    /// Mean utilisation over all CPUs, in percent: bits of a 32-bit float.
    pub cpu_usage_percent_bits: u32,
    pub memory_used_mb: u64,
    pub memory_free_mb: u64,
    /// Used space over all disks, in gibibytes: bits of a 64-bit float.
    pub disk_used_gb_bits: u64,
    /// Free space over all disks, in gibibytes: bits of a 64-bit float.
    pub disk_free_gb_bits: u64,
    /// Temperature in degrees Celsius: bits of a 32-bit float. Absent where
    /// no sensor could be read.
    pub temperature_celsius_bits: Option<u32>,
    pub network_rx_bytes: u64,
    pub network_tx_bytes: u64,
    pub video_active: bool,
    pub teleop_active: bool,
    /// Actuator positions; only the mobile base has them.
    pub servo_positions: Option<Vec<i32>>,
    /// Whether the depth camera is connected; only the dual-arm platform
    /// reports it.
    pub realsense_connected: Option<bool>,
    pub process_count: usize,
    /// Changes if and only if the machine has rebooted.
    pub boot_id: String,
}

/// Mathematical content of a [`DynamicInfo`].
pub struct DynamicInfoView {
    pub timestamp: Timestamp,
    pub uptime_seconds: nat,
    pub cpu_usage_percent_bits: u32,
    pub memory_used_mb: nat,
    pub memory_free_mb: nat,
    pub disk_used_gb_bits: u64,
    pub disk_free_gb_bits: u64,
    pub temperature_celsius_bits: Option<u32>,
    pub network_rx_bytes: nat,
    pub network_tx_bytes: nat,
    pub video_active: bool,
    pub teleop_active: bool,
    pub servo_positions: Option<Seq<i32>>,
    pub realsense_connected: Option<bool>,
    pub process_count: nat,
    pub boot_id: Seq<char>,
}

/// The elements of an optional list.
pub open spec fn positions_of(v: Option<Vec<i32>>) -> Option<Seq<i32>> {
    match v {
        Some(p) => Some(p@),
        None => None,
    }
}

impl View for DynamicInfo {
    type V = DynamicInfoView;

    open spec fn view(&self) -> DynamicInfoView {
        DynamicInfoView {
            timestamp: self.timestamp,
            uptime_seconds: self.uptime_seconds as nat,
            cpu_usage_percent_bits: self.cpu_usage_percent_bits,
            memory_used_mb: self.memory_used_mb as nat,
            memory_free_mb: self.memory_free_mb as nat,
            disk_used_gb_bits: self.disk_used_gb_bits,
            disk_free_gb_bits: self.disk_free_gb_bits,
            temperature_celsius_bits: self.temperature_celsius_bits,
            network_rx_bytes: self.network_rx_bytes as nat,
            network_tx_bytes: self.network_tx_bytes as nat,
            video_active: self.video_active,
            teleop_active: self.teleop_active,
            servo_positions: positions_of(self.servo_positions),
            realsense_connected: self.realsense_connected,
            process_count: self.process_count as nat,
            boot_id: self.boot_id@,
        }
    }
}

/// Raw readings of the host, taken afresh on every tick. A reading that
/// could not be taken is absent.
#[derive(Clone, Debug, PartialEq, Eq)]
pub struct LiveReadings {
    pub uptime_seconds: u64,
    /// Mean utilisation over all CPUs, in percent: bits of a 32-bit float.
    pub cpu_usage_percent_bits: u32,
    pub used_memory_bytes: u64,
    pub available_memory_bytes: u64,
    /// Used space over all disks, in gibibytes: bits of a 64-bit float.
    pub disk_used_gb_bits: u64,
    /// Free space over all disks, in gibibytes: bits of a 64-bit float.
    pub disk_free_gb_bits: u64,
    /// Temperature in degrees Celsius: bits of a 32-bit float.
    pub temperature_celsius_bits: Option<u32>,
    pub interfaces: Vec<InterfaceReading>,
    /// What the search for video processes printed, if it ran.
    pub video_processes: Option<Vec<u8>>,
    /// What the search for teleoperation processes printed, if it ran.
    pub teleop_processes: Option<Vec<u8>>,
    /// Whether the dedicated depth-camera device node exists.
    pub depth_camera_node: bool,
    pub process_count: usize,
}

/// Mathematical content of a [`LiveReadings`].
pub struct LiveReadingsView {
    pub uptime_seconds: nat,
    pub cpu_usage_percent_bits: u32,
    pub used_memory_bytes: nat,
    pub available_memory_bytes: nat,
    pub disk_used_gb_bits: u64,
    pub disk_free_gb_bits: u64,
    pub temperature_celsius_bits: Option<u32>,
    pub interfaces: Seq<InterfaceReadingView>,
    pub video_processes: Option<Seq<u8>>,
    pub teleop_processes: Option<Seq<u8>>,
    pub depth_camera_node: bool,
    pub process_count: nat,
}

/// The bytes of an optional output.
pub open spec fn output_of(v: Option<Vec<u8>>) -> Option<Seq<u8>> {
    match v {
        Some(out) => Some(out@),
        None => None,
    }
}

impl View for LiveReadings {
    type V = LiveReadingsView;

    open spec fn view(&self) -> LiveReadingsView {
        LiveReadingsView {
            uptime_seconds: self.uptime_seconds as nat,
            cpu_usage_percent_bits: self.cpu_usage_percent_bits,
            used_memory_bytes: self.used_memory_bytes as nat,
            available_memory_bytes: self.available_memory_bytes as nat,
            disk_used_gb_bits: self.disk_used_gb_bits,
            disk_free_gb_bits: self.disk_free_gb_bits,
            temperature_celsius_bits: self.temperature_celsius_bits,
            interfaces: readings_of(self.interfaces@),
            video_processes: output_of(self.video_processes),
            teleop_processes: output_of(self.teleop_processes),
            depth_camera_node: self.depth_camera_node,
            process_count: self.process_count as nat,
        }
    }
}

/// Whether a process search found something: it ran and printed at least
/// one byte.
pub open spec fn search_matched(output: Option<Seq<u8>>) -> bool {
    output matches Some(out) && out.len() > 0
}

/// The actuator positions that a robot of this variant reports: nine
/// zeros for the mobile base, none for the others.
pub open spec fn servo_positions_of(robot_type: RobotType) -> Option<Seq<i32>> {
    match robot_type {
        RobotType::Lekiwi => Some(Seq::new(SERVO_COUNT_LEKIWI as nat, |i: int| 0i32)),
        _ => None,
    }
}

/// The depth-camera field that a robot of this variant reports: whether
/// the device node exists for the dual-arm platform, nothing for the
/// others.
pub open spec fn realsense_of(robot_type: RobotType, node_present: bool) -> Option<bool> {
    match robot_type {
        RobotType::XLE => Some(node_present),
        _ => None,
    }
}

/// The snapshot that the readings stand for, for a robot of this variant,
/// with this boot identifier, taken at `now`.
pub open spec fn dynamic_snapshot(
    robot_type: RobotType,
    readings: LiveReadingsView,
    boot_id: Seq<char>,
    now: Timestamp,
) -> DynamicInfoView {
    DynamicInfoView {
        timestamp: now,
        uptime_seconds: readings.uptime_seconds,
        cpu_usage_percent_bits: readings.cpu_usage_percent_bits,
        memory_used_mb: readings.used_memory_bytes / (BYTES_PER_MB as nat),
        memory_free_mb: readings.available_memory_bytes / (BYTES_PER_MB as nat),
        disk_used_gb_bits: readings.disk_used_gb_bits,
        disk_free_gb_bits: readings.disk_free_gb_bits,
        temperature_celsius_bits: readings.temperature_celsius_bits,
        network_rx_bytes: received_total(readings.interfaces),
        network_tx_bytes: transmitted_total(readings.interfaces),
        video_active: search_matched(readings.video_processes),
        teleop_active: search_matched(readings.teleop_processes),
        servo_positions: servo_positions_of(robot_type),
        realsense_connected: realsense_of(robot_type, readings.depth_camera_node),
        process_count: readings.process_count,
        boot_id,
    }
}

/// Decides whether a process search found something.
pub fn process_matched(output: &Option<Vec<u8>>) -> (found: bool)
    ensures
        found == search_matched(output_of(*output)),
{
    match output {
        Some(out) => out.len() > 0,
        None => false,
    }
}

/// Reads the actuator positions of the robot: nine of them for the mobile
/// base, all at zero; none for the other variants.
pub fn get_servo_positions(robot_type: &RobotType) -> (positions: Option<Vec<i32>>)
    ensures
        positions_of(positions) == servo_positions_of(*robot_type),
{
    match robot_type {
        RobotType::Lekiwi => {
            let mut positions: Vec<i32> = Vec::new();
            while positions.len() < SERVO_COUNT_LEKIWI
                invariant
                    positions.len() <= SERVO_COUNT_LEKIWI,
                    forall|i: int| 0 <= i < positions.len() ==> positions@[i] == 0i32,
                decreases SERVO_COUNT_LEKIWI - positions.len(),
            {
                positions.push(0);
            }
            assert(positions@ =~= Seq::new(SERVO_COUNT_LEKIWI as nat, |i: int| 0i32));
            Some(positions)
        },
        _ => None,
    }
}

/// Builds the snapshot of one tick from the readings, the boot identifier
/// and the time of the reading. Fields that only one variant has are
/// filled for that variant and absent for the others.
pub fn snapshot_from(
    robot_type: &RobotType,
    readings: LiveReadings,
    boot_id: String,
    now: Timestamp,
) -> (snapshot: DynamicInfo)
    requires
        totals_fit(readings@.interfaces),
    ensures
        snapshot@ == dynamic_snapshot(*robot_type, readings@, boot_id@, now),
{
    let (rx, tx) = traffic_totals(&readings.interfaces);
    let realsense_connected = match robot_type {
        RobotType::XLE => Some(readings.depth_camera_node),
        _ => None,
    };
    DynamicInfo {
        timestamp: now,
        uptime_seconds: readings.uptime_seconds,
        cpu_usage_percent_bits: readings.cpu_usage_percent_bits,
        memory_used_mb: readings.used_memory_bytes / BYTES_PER_MB,
        memory_free_mb: readings.available_memory_bytes / BYTES_PER_MB,
        disk_used_gb_bits: readings.disk_used_gb_bits,
        disk_free_gb_bits: readings.disk_free_gb_bits,
        temperature_celsius_bits: readings.temperature_celsius_bits,
        network_rx_bytes: rx as u64,
        network_tx_bytes: tx as u64,
        video_active: process_matched(&readings.video_processes),
        teleop_active: process_matched(&readings.teleop_processes),
        servo_positions: get_servo_positions(robot_type),
        realsense_connected,
        process_count: readings.process_count,
        boot_id,
    }
}

/// Builds the snapshot of one tick, stamped with the time at which it is
/// built. The boot identifier is the one the kernel published, trimmed;
/// where it published none, a fresh random one.
pub fn collect_dynamic_info(
    robot_type: &RobotType,
    readings: LiveReadings,
    published_boot_id: Option<String>,
) -> (snapshot: DynamicInfo)
    requires
        totals_fit(readings@.interfaces),
    ensures
        snapshot@ == dynamic_snapshot(
            *robot_type,
            readings@,
            snapshot@.boot_id,
            snapshot@.timestamp,
        ),
        match published_boot_id {
            Some(text) => snapshot@.boot_id == trimmed(text@),
            None => is_random_uuid_text(snapshot@.boot_id),
        },
        snapshot.timestamp.secs >= 0,
        snapshot.timestamp.nanos < 1_000_000_000,
{
    let now = utc_now();
    let boot_id = get_boot_id(published_boot_id);
    snapshot_from(robot_type, readings, boot_id, now)
}

} // verus!
