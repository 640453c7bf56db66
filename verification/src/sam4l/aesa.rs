//! Configuration of the SAM4L AES accelerator (AESA).
use vstd::prelude::*;

verus! {

/// The register block of the AESA (page 1005 of the SAM4L manual).
#[derive(Clone, Copy, Debug)]
pub struct AesaRegisters {
    pub ctrl: u32,  // Control (0x00)
    pub mode: u32,  // Mode (0x04)
    pub databufptr: u32,  // Data Buffer Pointer Register (0x08)
    pub sr: u32,  // Status Register (0x0c)
    pub ier: u32,  // Interrupt Enable Register (0x10)
    pub idr: u32,  // Interrupt Disable Register (0x14)
    pub imr: u32,  // Interrupt Mask Register (0x18)
    pub key0: u32,  // Key Register 0 (0x20)
    pub key1: u32,  // Key Register 1 (0x24)
    pub key2: u32,  // Key Register 2 (0x28)
    pub key3: u32,  // Key Register 3 (0x2C)
    pub key4: u32,  // Key Register 4 (0x30)
    pub key5: u32,  // Key Register 5 (0x34)
    pub key6: u32,  // Key Register 6 (0x38)
    pub key7: u32,  // Key Register 7 (0x3c)
    pub initvect0: u32,  // Initialization Vector Register 0 (0x40)
    pub initvect1: u32,  // Initialization Vector Register 1 (0x44)
    pub initvect2: u32,  // Initialization Vector Register 2 (0x48)
    pub initvect3: u32,  // Initialization Vector Register 3 (0x4c)
    pub idata: [u32; 4],  // Input Data Register (0x50)
    pub odata: [u32; 4],  // Output Data Register (0x60)
    pub drngseed: [u32; 34],  // DRNG Seed Register (0x70)
    pub parameter: u32,  // Parameter Register (0xf8)
    pub version: u32,  // Version Register (0xfc)
}

/// A configuration of the accelerator.
#[allow(non_camel_case_types)]
pub struct Aes_config {
    /// 0 to decrypt, 1 to encrypt
    pub encrypt_mode: u32,
    /// 0 = 128bits, 1 = 192bits, 2 = 256bits
    pub key_size: u32,
    /// 0 = Non-DMA mode, 1 = DMA mode
    pub dma_mode: u32,
    /// 0 = ECB, 1 = CBC, 2 = OFB, 3 = CFB, 4 = CTR
    pub opmode: u32,
    /// 0 = 128bits, 1 = 64bits, 2 = 32bits, 3 = 16bits, 4 = 8bits
    pub cfb_size: u32,
    /// [0,15], bit=0 means CounterMeasure is disabled.
    pub countermeasure_mask: u32,
}

/// The value of the mode register for a configuration: the encryption mode
/// in the low bits, the key size in bits 1-2, DMA in bit 3, the operation
/// mode in bits 4-6, the CFB size in bits 8-10 and the countermeasure mask
/// in bits 16-19.
pub open spec fn mode_value(
    encrypt_mode: u32,
    key_size: u32,
    dma_mode: u32,
    opmode: u32,
    cfb_size: u32,
    countermeasure_mask: u32,
) -> u32 {
    encrypt_mode | ((0x3u32 << 1u32) & (key_size << 1u32)) | (if dma_mode != 0 { 8u32 } else { 0u32 }) | ((0x7u32
        << 4u32) & (opmode << 4u32)) | ((0x7u32 << 8u32) & (cfb_size << 8u32)) | ((0xFu32 << 16u32) & (
    countermeasure_mask << 16u32))
}

/// The abstract state of the device.
pub ghost struct AesView {
    pub registers: AesaRegisters,
    pub encrypt_mode: u32,
    pub key_size: u32,
    pub dma_mode: u32,
    pub opmode: u32,
    pub cfb_size: u32,
    pub countermeasure_mask: u32,
}

/// The AESA device with its current configuration.
#[allow(non_camel_case_types)]
pub struct Aes_dev_inst {
    registers: AesaRegisters,
    encrypt_mode: u32,
    key_size: u32,
    dma_mode: u32,
    opmode: u32,
    cfb_size: u32,
    countermeasure_mask: u32,
}

impl View for Aes_dev_inst {
    type V = AesView;

    closed spec fn view(&self) -> AesView {
        AesView {
            registers: self.registers,
            encrypt_mode: self.encrypt_mode,
            key_size: self.key_size,
            dma_mode: self.dma_mode,
            opmode: self.opmode,
            cfb_size: self.cfb_size,
            countermeasure_mask: self.countermeasure_mask,
        }
    }
}

/// The device with the default configuration: encrypt, 128-bit key, no
/// DMA, ECB, 128-bit CFB, every countermeasure on.
pub open spec fn with_defaults(v: AesView) -> AesView {
    AesView {
        encrypt_mode: 1,
        key_size: 0,
        dma_mode: 0,
        opmode: 0,
        cfb_size: 0,
        countermeasure_mask: 0x0F,
        ..v
    }
}

impl Aes_dev_inst {
    /// The device whose register block is `registers`, with the default
    /// configuration.
    pub fn new(registers: AesaRegisters) -> (r: Aes_dev_inst)
        ensures
            r@ == with_defaults(AesView {
                registers,
                encrypt_mode: 0,
                key_size: 0,
                dma_mode: 0,
                opmode: 0,
                cfb_size: 0,
                countermeasure_mask: 0,
            }),
    {
        Aes_dev_inst {
            registers: registers,
            encrypt_mode: 1,
            key_size: 0,
            dma_mode: 0,
            opmode: 0,
            cfb_size: 0,
            countermeasure_mask: 0x0F,
        }
    }

    /// The register block as last written.
    pub fn registers(&self) -> (r: AesaRegisters)
        ensures
            r == self@.registers,
    {
        self.registers
    }

    /// Restores the default configuration.
    pub fn aes_get_config_defaults(&mut self)
        ensures
            final(self)@ == with_defaults(old(self)@),
    {
        self.encrypt_mode = 1;
        self.key_size = 0;
        self.dma_mode = 0;
        self.opmode = 0;
        self.cfb_size = 0;
        self.countermeasure_mask = 0x0F;
    }

    /// Writes the configuration into the mode register.
    pub fn aes_set_config(&mut self)
        ensures
            final(self)@ == (AesView {
                registers: AesaRegisters {
                    mode: mode_value(
                        old(self)@.encrypt_mode,
                        old(self)@.key_size,
                        old(self)@.dma_mode,
                        old(self)@.opmode,
                        old(self)@.cfb_size,
                        old(self)@.countermeasure_mask,
                    ),
                    ..old(self)@.registers
                },
                ..old(self)@
            }),
    {
        let mut value: u32 = self.encrypt_mode;
        value = value | ((0x3u32 << 1u32) & (self.key_size << 1u32));
        let keyed = value;
        if self.dma_mode != 0 {
            value = value | 8;
        }
        value = value | ((0x7u32 << 4u32) & (self.opmode << 4u32));
        value = value | ((0x7u32 << 8u32) & (self.cfb_size << 8u32));
        value = value | ((0xFu32 << 16u32) & (self.countermeasure_mask << 16u32));
        assert(value == mode_value(
            self.encrypt_mode,
            self.key_size,
            self.dma_mode,
            self.opmode,
            self.cfb_size,
            self.countermeasure_mask,
        )) by {
            if self.dma_mode == 0 {
                assert(keyed | 0u32 == keyed) by (bit_vector);
            }
        }
        self.registers.mode = value;
    }
}

/// Each field of the configuration can be read back from the mode register
/// value (for an encryption mode of 0 or 1; the other fields are cut to
/// their width).
pub proof fn lemma_mode_fields(
    encrypt_mode: u32,
    key_size: u32,
    dma_mode: u32,
    opmode: u32,
    cfb_size: u32,
    countermeasure_mask: u32,
)
    requires
        encrypt_mode <= 1,
    ensures
        ({
            let v = mode_value(encrypt_mode, key_size, dma_mode, opmode, cfb_size, countermeasure_mask);
            &&& v & 1u32 == encrypt_mode
            &&& (v >> 1u32) & 0x3u32 == key_size & 0x3u32
            &&& ((v >> 3u32) & 1u32 == 1u32) == (dma_mode != 0)
            &&& (v >> 4u32) & 0x7u32 == opmode & 0x7u32
            &&& (v >> 8u32) & 0x7u32 == cfb_size & 0x7u32
            &&& (v >> 16u32) & 0xFu32 == countermeasure_mask & 0xFu32
            &&& v >> 20u32 == 0u32
        }),
{
    let d: u32 = if dma_mode != 0 { 8u32 } else { 0u32 };
    let k: u32 = (0x3u32 << 1u32) & (key_size << 1u32);
    let v = mode_value(encrypt_mode, key_size, dma_mode, opmode, cfb_size, countermeasure_mask);
    assert(v == encrypt_mode | k | d | ((0x7u32 << 4u32) & (opmode << 4u32)) | ((0x7u32 << 8u32) & (cfb_size << 8u32)) | ((0xFu32 << 16u32) & (countermeasure_mask << 16u32)));
    assert({
        &&& v & 1u32 == encrypt_mode
        &&& (v >> 1u32) & 0x3u32 == key_size & 0x3u32
        &&& ((v >> 3u32) & 1u32 == 1u32) == (d == 8u32)
        &&& (v >> 4u32) & 0x7u32 == opmode & 0x7u32
        &&& (v >> 8u32) & 0x7u32 == cfb_size & 0x7u32
        &&& (v >> 16u32) & 0xFu32 == countermeasure_mask & 0xFu32
        &&& v >> 20u32 == 0u32
    }) by (bit_vector)
        requires
            v == encrypt_mode | k | d | ((0x7u32 << 4u32) & (opmode << 4u32)) | ((0x7u32 << 8u32) & (cfb_size << 8u32)) | ((0xFu32 << 16u32) & (countermeasure_mask << 16u32)),
            k == (0x3u32 << 1u32) & (key_size << 1u32),
            encrypt_mode <= 1,
            d == 0u32 || d == 8u32,
    ;
}

} // verus!
