//! The endpoint registry: what each direction of each of the eight
//! endpoints has been set up to be.

use crate::usb::buffers::supported_packet_size;
use crate::usb::types::{EndpointAddress, EndpointType, EndpointTypeBits, UsbDirection, UsbError};
use vstd::prelude::*;

verus! {

/// How many endpoints the peripheral has.
pub const ENDPOINT_COUNT: usize = 8;

/// The configuration wanted for one direction of an endpoint. A direction
/// whose type is `Disabled` is free, and its other fields mean nothing.
#[derive(Clone, Copy, PartialEq, Eq, Structural, Debug)]
pub struct EPConfig {
    pub ep_type: EndpointTypeBits,
    pub allocated_size: u16,
    pub max_packet_size: u16,
    pub addr: usize,
}

impl EPConfig {
    /// The configuration of a direction that nothing has claimed.
    pub open spec fn free() -> EPConfig {
        EPConfig {
            ep_type: EndpointTypeBits::Disabled,
            allocated_size: 0,
            max_packet_size: 0,
            addr: 0,
        }
    }

    /// Whether the direction has been claimed.
    pub open spec fn is_allocated(self) -> bool {
        self.ep_type != EndpointTypeBits::Disabled
    }

    pub fn new(
        ep_type: EndpointType,
        allocated_size: u16,
        max_packet_size: u16,
        buffer_addr: usize,
    ) -> (config: Self)
        ensures
            config == (EPConfig {
                ep_type: EndpointTypeBits::of(ep_type),
                allocated_size,
                max_packet_size,
                addr: buffer_addr,
            }),
            config.is_allocated(),
    {
        EPConfig {
            ep_type: EndpointTypeBits::from(ep_type),
            allocated_size,
            max_packet_size,
            addr: buffer_addr,
        }
    }
}

impl Default for EPConfig {
    fn default() -> (config: Self)
        ensures
            config == EPConfig::free(),
    {
        EPConfig {
            ep_type: EndpointTypeBits::Disabled,
            allocated_size: 0,
            max_packet_size: 0,
            addr: 0,
        }
    }
}

/// The configuration wanted for both directions of an endpoint: `bank0` is
/// OUT, `bank1` is IN.
#[derive(Clone, Copy, PartialEq, Eq, Structural, Debug)]
pub struct EndpointInfo {
    pub bank0: EPConfig,
    pub bank1: EPConfig,
}

impl EndpointInfo {
    /// The configuration of the direction `dir`.
    pub open spec fn bank(self, dir: UsbDirection) -> EPConfig {
        match dir {
            UsbDirection::Out => self.bank0,
            UsbDirection::In => self.bank1,
        }
    }

    /// This pair with the direction `dir` replaced by `config`.
    pub open spec fn with_bank(self, dir: UsbDirection, config: EPConfig) -> EndpointInfo {
        match dir {
            UsbDirection::Out => EndpointInfo { bank0: config, ..self },
            UsbDirection::In => EndpointInfo { bank1: config, ..self },
        }
    }

    pub fn new() -> (info: Self)
        ensures
            info.bank0 == EPConfig::free(),
            info.bank1 == EPConfig::free(),
    {
        EndpointInfo { bank0: EPConfig::default(), bank1: EPConfig::default() }
    }
}

/// The configuration wanted for every endpoint of the peripheral.
#[derive(Clone, Copy, Debug)]
pub struct AllEndpoints {
    pub endpoints: [EndpointInfo; 8],
}

impl AllEndpoints {
    /// The configuration of direction `dir` of endpoint `idx`.
    pub open spec fn config(self, idx: int, dir: UsbDirection) -> EPConfig {
        self.endpoints[idx].bank(dir)
    }

    /// Whether direction `dir` of endpoint `idx` is unclaimed.
    pub open spec fn is_free(self, idx: int, dir: UsbDirection) -> bool {
        !self.config(idx, dir).is_allocated()
    }

    /// Whether `idx` is the lowest endpoint above the control endpoint whose
    /// direction `dir` is unclaimed.
    pub open spec fn is_first_free(self, idx: int, dir: UsbDirection) -> bool {
        &&& 1 <= idx < ENDPOINT_COUNT
        &&& self.is_free(idx, dir)
        &&& forall|j: int| 1 <= j < idx ==> !#[trigger] self.is_free(j, dir)
    }

    /// Whether no endpoint above the control endpoint has its direction
    /// `dir` unclaimed.
    pub open spec fn is_full(self, dir: UsbDirection) -> bool {
        forall|j: int| 1 <= j < ENDPOINT_COUNT ==> !#[trigger] self.is_free(j, dir)
    }

    /// The lowest endpoint from `start` on whose direction `dir` is free,
    /// or the number of endpoints when there is none.
    pub open spec fn first_free(self, dir: UsbDirection, start: int) -> int
        decreases ENDPOINT_COUNT - start,
    {
        if start >= ENDPOINT_COUNT {
            ENDPOINT_COUNT as int
        } else if self.is_free(start, dir) {
            start
        } else {
            self.first_free(dir, start + 1)
        }
    }

    /// Whether every allocated direction has a packet size that the
    /// peripheral can carry.
    pub open spec fn all_supported(self) -> bool {
        forall|idx: int, dir: UsbDirection|
            0 <= idx < ENDPOINT_COUNT && (#[trigger] self.config(idx, dir)).is_allocated()
                ==> supported_packet_size(self.config(idx, dir).max_packet_size as int)
    }

    /// A registry in which every direction of every endpoint is free.
    pub fn new() -> (all: Self)
        ensures
            forall|idx: int, dir: UsbDirection|
                0 <= idx < ENDPOINT_COUNT ==> #[trigger] all.config(idx, dir) == EPConfig::free(),
    {
        AllEndpoints { endpoints: [EndpointInfo::new(); 8] }
    }

    /// Looks up the configuration of one direction of one endpoint.
    pub fn get(&self, idx: usize, dir: UsbDirection) -> (config: EPConfig)
        requires
            idx < ENDPOINT_COUNT,
        ensures
            config == self.config(idx as int, dir),
    {
        match dir {
            UsbDirection::Out => self.endpoints[idx].bank0,
            UsbDirection::In => self.endpoints[idx].bank1,
        }
    }

    /// Finds the lowest endpoint whose direction `dir` is free. Endpoint 0
    /// is kept for control transfers and is never the answer.
    pub fn find_free_endpoint(&self, dir: UsbDirection) -> (result: Result<usize, UsbError>)
        ensures
            match result {
                Ok(idx) => {
                    &&& idx != 0
                    &&& self.is_first_free(idx as int, dir)
                    &&& idx == self.first_free(dir, 1)
                },
                Err(e) => {
                    &&& e == UsbError::EndpointOverflow
                    &&& self.is_full(dir)
                    &&& self.first_free(dir, 1) == ENDPOINT_COUNT
                },
            },
    {
        let mut idx: usize = 1;
        while idx < 8
            invariant
                1 <= idx <= 8,
                forall|j: int| 1 <= j < idx ==> !#[trigger] self.is_free(j, dir),
                self.first_free(dir, 1) == self.first_free(dir, idx as int),
            decreases 8 - idx,
        {
            let ep_type = match dir {
                UsbDirection::Out => self.endpoints[idx].bank0.ep_type,
                UsbDirection::In => self.endpoints[idx].bank1.ep_type,
            };
            if ep_type == EndpointTypeBits::Disabled {
                return Ok(idx);
            }
            idx = idx + 1;
        }
        Err(UsbError::EndpointOverflow)
    }

    /// Claims direction `dir` of endpoint `idx`. A direction that is already
    /// claimed keeps its configuration, and the call fails.
    pub fn allocate_endpoint(
        &mut self,
        dir: UsbDirection,
        idx: usize,
        ep_type: EndpointType,
        allocated_size: u16,
        max_packet_size: u16,
        _interval: u8,
        buffer_addr: usize,
    ) -> (result: Result<EndpointAddress, UsbError>)
        requires
            idx < ENDPOINT_COUNT,
        ensures
            old(self).is_free(idx as int, dir) ==> {
                &&& result is Ok
                &&& result->Ok_0.raw_spec() == EndpointAddress::parts(idx as int, dir)
                &&& result->Ok_0.index_spec() == idx
                &&& result->Ok_0.direction_spec() == dir
                &&& final(self).config(idx as int, dir) == (EPConfig {
                    ep_type: EndpointTypeBits::of(ep_type),
                    allocated_size,
                    max_packet_size,
                    addr: buffer_addr,
                })
            },
            !old(self).is_free(idx as int, dir) ==> {
                &&& result == Err::<EndpointAddress, UsbError>(UsbError::EndpointOverflow)
                &&& *final(self) == *old(self)
            },
            forall|i: int, d: UsbDirection|
                0 <= i < ENDPOINT_COUNT && !(i == idx && d == dir)
                    ==> #[trigger] final(self).config(i, d) == old(self).config(i, d),
    {
        let current = self.get(idx, dir);
        if current.ep_type != EndpointTypeBits::Disabled {
            return Err(UsbError::EndpointOverflow);
        }
        let config = EPConfig::new(ep_type, allocated_size, max_packet_size, buffer_addr);
        match dir {
            UsbDirection::Out => {
                self.endpoints[idx].bank0 = config;
            },
            UsbDirection::In => {
                self.endpoints[idx].bank1 = config;
            },
        }
        Ok(EndpointAddress::from_parts(idx, dir))
    }
}

} // verus!
