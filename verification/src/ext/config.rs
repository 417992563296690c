//! Engine-specific transport settings.
use vstd::prelude::*;

use crate::config::TransportConfig;
use crate::engine::{CongestionControlAlgorithm, FloatBits, MultipathAlgorithm};

verus! {

/// Extension trait for engine-specific transport configuration: congestion control algorithm
/// selection, multipath QUIC, and fine-tuning of BBR and COPA parameters.
pub trait TransportConfigExt: Sized {
    /// Set the congestion control algorithm (Cubic, BBR, BBRv3, or COPA).
    fn set_congestion_control_algorithm(&mut self, algo: CongestionControlAlgorithm) -> &mut Self;

    /// Set the initial congestion window in packets.
    fn set_initial_congestion_window(&mut self, packets: u64) -> &mut Self;

    /// Set the minimum congestion window in packets.
    fn set_min_congestion_window(&mut self, packets: u64) -> &mut Self;

    /// Enable or disable packet pacing.
    fn enable_pacing(&mut self, enabled: bool) -> &mut Self;

    /// Enable multipath QUIC.
    fn enable_multipath(&mut self, enabled: bool) -> &mut Self;

    /// Set the multipath scheduling algorithm (MinRtt, Redundant, RoundRobin).
    fn set_multipath_algorithm(&mut self, algo: MultipathAlgorithm) -> &mut Self;

    /// Set BBR ProbeRTT duration in milliseconds.
    fn set_bbr_probe_rtt_duration(&mut self, millis: u64) -> &mut Self;

    /// Enable BBR ProbeRTT based on BDP.
    fn enable_bbr_probe_rtt_based_on_bdp(&mut self, enabled: bool) -> &mut Self;

    /// Set BBR ProbeRTT congestion window gain.
    fn set_bbr_probe_rtt_cwnd_gain(&mut self, gain: FloatBits) -> &mut Self;

    /// Set BBR RTprop filter length in milliseconds.
    fn set_bbr_rtprop_filter_len(&mut self, millis: u64) -> &mut Self;

    /// Set BBR ProbeBW congestion window gain.
    fn set_bbr_probe_bw_cwnd_gain(&mut self, gain: FloatBits) -> &mut Self;

    /// Set COPA slow-start delta parameter.
    fn set_copa_slow_start_delta(&mut self, delta: FloatBits) -> &mut Self;

    /// Set COPA steady-state delta parameter.
    fn set_copa_steady_delta(&mut self, delta: FloatBits) -> &mut Self;

    /// Enable COPA standing RTT usage.
    fn enable_copa_use_standing_rtt(&mut self, enabled: bool) -> &mut Self;
}

impl TransportConfigExt for TransportConfig {
    fn set_congestion_control_algorithm(&mut self, algo: CongestionControlAlgorithm) -> (r: &mut Self)
        ensures
            *r == (TransportConfig { congestion_control_algorithm: Some(algo), ..*old(self) }),
            *final(self) == *final(r),
    {
        self.congestion_control_algorithm = Some(algo);
        self
    }

    fn set_initial_congestion_window(&mut self, packets: u64) -> (r: &mut Self)
        ensures
            *r == (TransportConfig { initial_congestion_window: Some(packets), ..*old(self) }),
            *final(self) == *final(r),
    {
        self.initial_congestion_window = Some(packets);
        self
    }

    fn set_min_congestion_window(&mut self, packets: u64) -> (r: &mut Self)
        ensures
            *r == (TransportConfig { min_congestion_window: Some(packets), ..*old(self) }),
            *final(self) == *final(r),
    {
        self.min_congestion_window = Some(packets);
        self
    }

    fn enable_pacing(&mut self, enabled: bool) -> (r: &mut Self)
        ensures
            *r == (TransportConfig { enable_pacing: Some(enabled), ..*old(self) }),
            *final(self) == *final(r),
    {
        self.enable_pacing = Some(enabled);
        self
    }

    fn enable_multipath(&mut self, enabled: bool) -> (r: &mut Self)
        ensures
            *r == (TransportConfig { enable_multipath: Some(enabled), ..*old(self) }),
            *final(self) == *final(r),
    {
        self.enable_multipath = Some(enabled);
        self
    }

    fn set_multipath_algorithm(&mut self, algo: MultipathAlgorithm) -> (r: &mut Self)
        ensures
            *r == (TransportConfig { multipath_algorithm: Some(algo), ..*old(self) }),
            *final(self) == *final(r),
    {
        self.multipath_algorithm = Some(algo);
        self
    }

    fn set_bbr_probe_rtt_duration(&mut self, millis: u64) -> (r: &mut Self)
        ensures
            *r == (TransportConfig { bbr_probe_rtt_duration: Some(millis), ..*old(self) }),
            *final(self) == *final(r),
    {
        self.bbr_probe_rtt_duration = Some(millis);
        self
    }

    fn enable_bbr_probe_rtt_based_on_bdp(&mut self, enabled: bool) -> (r: &mut Self)
        ensures
            *r == (TransportConfig { bbr_probe_rtt_based_on_bdp: Some(enabled), ..*old(self) }),
            *final(self) == *final(r),
    {
        self.bbr_probe_rtt_based_on_bdp = Some(enabled);
        self
    }

    fn set_bbr_probe_rtt_cwnd_gain(&mut self, gain: FloatBits) -> (r: &mut Self)
        ensures
            *r == (TransportConfig { bbr_probe_rtt_cwnd_gain: Some(gain), ..*old(self) }),
            *final(self) == *final(r),
    {
        self.bbr_probe_rtt_cwnd_gain = Some(gain);
        self
    }

    fn set_bbr_rtprop_filter_len(&mut self, millis: u64) -> (r: &mut Self)
        ensures
            *r == (TransportConfig { bbr_rtprop_filter_len: Some(millis), ..*old(self) }),
            *final(self) == *final(r),
    {
        self.bbr_rtprop_filter_len = Some(millis);
        self
    }

    fn set_bbr_probe_bw_cwnd_gain(&mut self, gain: FloatBits) -> (r: &mut Self)
        ensures
            *r == (TransportConfig { bbr_probe_bw_cwnd_gain: Some(gain), ..*old(self) }),
            *final(self) == *final(r),
    {
        self.bbr_probe_bw_cwnd_gain = Some(gain);
        self
    }

    fn set_copa_slow_start_delta(&mut self, delta: FloatBits) -> (r: &mut Self)
        ensures
            *r == (TransportConfig { copa_slow_start_delta: Some(delta), ..*old(self) }),
            *final(self) == *final(r),
    {
        self.copa_slow_start_delta = Some(delta);
        self
    }

    fn set_copa_steady_delta(&mut self, delta: FloatBits) -> (r: &mut Self)
        ensures
            *r == (TransportConfig { copa_steady_delta: Some(delta), ..*old(self) }),
            *final(self) == *final(r),
    {
        self.copa_steady_delta = Some(delta);
        self
    }

    fn enable_copa_use_standing_rtt(&mut self, enabled: bool) -> (r: &mut Self)
        ensures
            *r == (TransportConfig { copa_use_standing_rtt: Some(enabled), ..*old(self) }),
            *final(self) == *final(r),
    {
        self.copa_use_standing_rtt = Some(enabled);
        self
    }
}

} // verus!
