use vstd::prelude::*;

verus! {

/// The sensor driver: exclusive owner of the I2C bus device and of the delay
/// provider that a read needs.
///
/// One read is a `ReadSequence` run against these two: each write, read and
/// delay that it asks for goes to the device or the delay provider held
/// here.
pub struct Am2320<I2C, Delay> {
    device: I2C,
    delay: Delay,
}

impl<I2C, Delay> Am2320<I2C, Delay> {
    /// The bus device that the driver holds.
    pub closed spec fn spec_device(&self) -> I2C {
        self.device
    }

    /// The delay provider that the driver holds.
    pub closed spec fn spec_delay(&self) -> Delay {
        self.delay
    }

    /// Creates a driver that owns `device` and `delay`.
    pub fn new(device: I2C, delay: Delay) -> (r: Self)
        ensures
            r.spec_device() == device,
            r.spec_delay() == delay,
    {
        Am2320 { device, delay }
    }

    /// Lends out the bus device; the delay provider stays as it is.
    pub fn device_mut(&mut self) -> (r: &mut I2C)
        ensures
            *r == old(self).spec_device(),
            final(self).spec_device() == *final(r),
            final(self).spec_delay() == old(self).spec_delay(),
    {
        &mut self.device
    }

    /// Lends out the delay provider; the bus device stays as it is.
    pub fn delay_mut(&mut self) -> (r: &mut Delay)
        ensures
            *r == old(self).spec_delay(),
            final(self).spec_delay() == *final(r),
            final(self).spec_device() == old(self).spec_device(),
    {
        &mut self.delay
    }
}

} // verus!
