//! Network-facing configuration and the kernel-bypass port stub.
//!
//! Socket I/O itself lives outside the verified core; this module holds the
//! configuration values it is driven by, and the placeholder kernel-bypass
//! port whose real implementation would bind a NIC queue.

use vstd::prelude::*;

verus! {

/// Network configuration.
#[derive(Debug, Clone)]
pub struct NetworkConfig {
    /// Host to connect to.
    pub host: String,
    /// TCP port.
    pub port: u16,
    /// Whether to use the kernel-bypass path.
    pub use_dpdk: bool,
    /// Read buffer size in bytes.
    pub buffer_size: usize,
}

impl Default for NetworkConfig {
    /// The default feed endpoint: localhost:5555 over plain TCP with a
    /// 4 KiB buffer.
    fn default() -> (c: NetworkConfig)
        ensures
            c.host@ == "localhost"@,
            c.port == 5555,
            c.use_dpdk == false,
            c.buffer_size == 4096,
    {
        NetworkConfig {
            host: "localhost".to_owned(),
            port: 5555,
            use_dpdk: false,
            buffer_size: 4096,
        }
    }
}

/// Kernel-bypass port configuration.
#[derive(Debug, Clone, Copy)]
pub struct DpdkConfig {
    /// Number of receive queues.
    pub rx_queues: u16,
    /// Number of transmit queues.
    pub tx_queues: u16,
    /// Number of RX descriptors.
    pub rx_desc: u16,
    /// Number of TX descriptors.
    pub tx_desc: u16,
    /// Port identifier.
    pub port_id: u16,
    /// Memory pool size.
    pub mbuf_pool_size: u32,
}

impl Default for DpdkConfig {
    /// One queue pair with 1024 descriptors each on port 0.
    fn default() -> (c: DpdkConfig)
        ensures
            c.rx_queues == 1,
            c.tx_queues == 1,
            c.rx_desc == 1024,
            c.tx_desc == 1024,
            c.port_id == 0,
            c.mbuf_pool_size == 8192,
    {
        DpdkConfig {
            rx_queues: 1,
            tx_queues: 1,
            rx_desc: 1024,
            tx_desc: 1024,
            port_id: 0,
            mbuf_pool_size: 8192,
        }
    }
}

/// Kernel-bypass port placeholder: the real implementation would link the
/// vendor poll-mode driver; this one accepts the configuration and moves no
/// packets.
pub struct DpdkPort {
    /// The configuration the port was created with.
    pub config: DpdkConfig,
    /// Whether the underlying device has been initialized.
    pub initialized: bool,
}

impl DpdkPort {
    /// Initialize a port for the given configuration.
    pub fn new(config: DpdkConfig) -> (r: Result<DpdkPort, String>)
        ensures
            r matches Ok(p) && p.config == config && p.initialized == false,
    {
        Ok(DpdkPort { config, initialized: false })
    }

    /// Receive a burst of packets; the placeholder returns none.
    pub fn rx_burst(&mut self, max_packets: usize) -> (r: Result<Vec<Vec<u8>>, String>)
        ensures
            r matches Ok(v) && v@ == Seq::<Vec<u8>>::empty(),
            *final(self) == *old(self),
    {
        let v: Vec<Vec<u8>> = Vec::new();
        proof {
            assert(v@ =~= Seq::<Vec<u8>>::empty());
        }
        Ok(v)
    }

    /// Transmit a burst of packets; the placeholder sends none.
    pub fn tx_burst(&mut self, packets: &Vec<Vec<u8>>) -> (r: Result<usize, String>)
        ensures
            r matches Ok(n) && n == 0,
            *final(self) == *old(self),
    {
        Ok(0)
    }
}

} // verus!
