use vstd::prelude::*;

verus! {

/// Everything the shaping setup is parameterised by.
pub struct ShaperConfig {
    /// Network device that is shaped (e.g. `wlan0`).
    pub interface: String,
    /// Handle of the root queueing discipline (e.g. `1:0`).
    pub root_handle: String,
    /// Parent handle of the VIP class (e.g. `1:1`).
    pub vip_root_handle: String,
    /// Class id of the default-rate class (e.g. `1:10`).
    pub class_id: String,
    /// Class id of the VIP-rate class (e.g. `1:5`).
    pub vip_class_id: String,
    /// Rate and ceiling of the default class (e.g. `120kbps`).
    pub default_rate: String,
    /// Rate and ceiling of the VIP class (e.g. `256kbps`).
    pub vip_rate: String,
    /// Addresses that get the VIP mark.
    pub vip_ips: Vec<String>,
}

/// Mathematical model of a [`ShaperConfig`].
pub ghost struct ConfigView {
    pub interface: Seq<char>,
    pub root_handle: Seq<char>,
    pub vip_root_handle: Seq<char>,
    pub class_id: Seq<char>,
    pub vip_class_id: Seq<char>,
    pub default_rate: Seq<char>,
    pub vip_rate: Seq<char>,
    pub vip_ips: Seq<Seq<char>>,
}

/// The characters of each string, in order.
pub open spec fn strings_view(v: Seq<String>) -> Seq<Seq<char>> {
    v.map_values(|s: String| s@)
}

impl View for ShaperConfig {
    type V = ConfigView;

    open spec fn view(&self) -> ConfigView {
        ConfigView {
            interface: self.interface@,
            root_handle: self.root_handle@,
            vip_root_handle: self.vip_root_handle@,
            class_id: self.class_id@,
            vip_class_id: self.vip_class_id@,
            default_rate: self.default_rate@,
            vip_rate: self.vip_rate@,
            vip_ips: strings_view(self.vip_ips@),
        }
    }
}

impl Default for ShaperConfig {
    /// One Wi-Fi interface, a default rate of 120kbps and a single VIP address
    /// at 256kbps.
    fn default() -> (r: ShaperConfig)
        ensures
            r@.interface == "wlan0"@,
            r@.root_handle == "1:0"@,
            r@.vip_root_handle == "1:1"@,
            r@.class_id == "1:10"@,
            r@.vip_class_id == "1:5"@,
            r@.default_rate == "120kbps"@,
            r@.vip_rate == "256kbps"@,
            r@.vip_ips == seq!["192.168.1.111"@],
    {
        let mut vip_ips: Vec<String> = Vec::new();
        vip_ips.push(String::from_str("192.168.1.111"));
        let r = ShaperConfig {
            interface: String::from_str("wlan0"),
            root_handle: String::from_str("1:0"),
            vip_root_handle: String::from_str("1:1"),
            class_id: String::from_str("1:10"),
            vip_class_id: String::from_str("1:5"),
            default_rate: String::from_str("120kbps"),
            vip_rate: String::from_str("256kbps"),
            vip_ips,
        };
        assert(r@.vip_ips =~= seq!["192.168.1.111"@]);
        r
    }
}

} // verus!
