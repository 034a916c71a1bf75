//! WAV data at another volume.

use std::io::Cursor;

use vstd::prelude::*;
use vstd::slice::slice_to_vec;

use crate::volume::{scale_sample, volume_key, Volume};

verus! {

/// How the samples of WAV data are laid out.
#[derive(Clone, Copy, Debug, PartialEq, Eq, Structural)]
pub struct WavFormat {
    pub channels: u16,
    pub sample_rate: u32,
    pub bits_per_sample: u16,
    pub is_float: bool,
}

impl WavFormat {
    /// The bytes that one sample takes when it is written.
    pub open spec fn sample_bytes(self) -> nat {
        ((self.bits_per_sample + 7) / 8) as nat
    }

    /// The bit depths that can be written.
    pub open spec fn is_supported(self) -> bool {
        ||| self.bits_per_sample == 8
        ||| self.bits_per_sample == 16
        ||| self.bits_per_sample == 24
        ||| self.bits_per_sample == 32
    }

    /// Whether a header can be made for the format: its numbers are in range, and
    /// float samples have 32 bits.
    pub open spec fn has_header(self) -> bool {
        &&& 1 <= self.bits_per_sample <= 65528
        &&& 1 <= self.channels
        &&& self.is_supported() ==> {
            &&& 1 <= self.sample_rate
            &&& self.sample_rate * self.sample_bytes() * self.channels <= u32::MAX
            &&& self.is_float ==> self.bits_per_sample == 32
        }
    }

    /// The bytes of the header that count towards the length it states: more than two
    /// channels or sixteen bits take the longer form.
    pub open spec fn header_bytes(self) -> nat {
        if self.channels > 2 || self.bits_per_sample > 16 {
            60
        } else {
            36
        }
    }

    /// Whether `count` samples stay within the length that a header can state.
    pub open spec fn holds(self, count: nat) -> bool {
        count * self.sample_bytes() + self.header_bytes() <= u32::MAX
    }

    /// Whether a sample fits the bit depth.
    pub open spec fn fits(self, sample: i16) -> bool {
        self.bits_per_sample == 16 || (self.bits_per_sample == 8 && -128 <= sample <= 127)
    }

    /// Whether what is written from `samples` can be read back: whole frames of
    /// integer samples that fit, with a frame length in range.
    pub open spec fn round_trips(self, samples: Seq<i16>) -> bool {
        &&& !self.is_float
        &&& self.bits_per_sample == 8 || self.bits_per_sample == 16
        &&& self.channels * self.sample_bytes() <= u16::MAX
        &&& samples.len() % self.channels as nat == 0
        &&& forall|i: int| 0 <= i < samples.len() ==> self.fits(#[trigger] samples[i])
    }

    fn header_fits(&self) -> (res: bool)
        ensures
            res == self.has_header(),
    {
        let bits: u16 = self.bits_per_sample;
        if bits < 1 || bits > 65528 || self.channels < 1 {
            return false;
        }
        if !(bits == 8 || bits == 16 || bits == 24 || bits == 32) {
            return true;
        }
        let bytes: u128 = (bits as u128 + 7) / 8;
        assert(self.sample_rate * bytes * self.channels <= 0xffff_ffff * 4 * 0xffff)
            by (nonlinear_arith)
            requires
                self.sample_rate <= 0xffff_ffff,
                bytes <= 4,
                self.channels <= 0xffff,
        ;
        assert(self.sample_rate * bytes <= 0xffff_ffff * 4) by (nonlinear_arith)
            requires
                self.sample_rate <= 0xffff_ffff,
                bytes <= 4,
        ;
        self.sample_rate >= 1 && self.sample_rate as u128 * bytes * self.channels as u128
            <= 0xffff_ffff && (!self.is_float || bits == 32)
    }

    fn has_room_for(&self, count: usize) -> (res: bool)
        ensures
            res == self.holds(count as nat),
    {
        let bytes: u128 = (self.bits_per_sample as u128 + 7) / 8;
        assert(count * bytes <= 0xffff_ffff_ffff_ffff * 0x1_0000) by (nonlinear_arith)
            requires
                count <= 0xffff_ffff_ffff_ffff,
                bytes <= 0x1_0000,
        ;
        let header: u128 = if self.channels > 2 || self.bits_per_sample > 16 {
            60
        } else {
            36
        };
        count as u128 * bytes + header <= 0xffff_ffff
    }
}

/// The format that the header of WAV data states, or why it cannot be read.
pub uninterp spec fn wav_format(wav: Seq<u8>) -> Result<WavFormat, Seq<char>>;

/// The samples of WAV data as 16-bit integers, or why they cannot be read.
pub uninterp spec fn wav_samples(wav: Seq<u8>) -> Result<Seq<i16>, Seq<char>>;

/// The WAV data that is written for a format and samples, or why it cannot be.
pub uninterp spec fn wav_encoding(format: WavFormat, samples: Seq<i16>) -> Result<
    Seq<u8>,
    Seq<char>,
>;

/// The WAV data reads as the given format and samples.
pub open spec fn reads_as(wav: Seq<u8>, format: WavFormat, samples: Seq<i16>) -> bool {
    &&& wav_format(wav) == Ok::<WavFormat, Seq<char>>(format)
    &&& wav_samples(wav) == Ok::<Seq<i16>, Seq<char>>(samples)
}

/// A result by the characters of its error.
pub open spec fn format_view(res: Result<WavFormat, String>) -> Result<WavFormat, Seq<char>> {
    match res {
        Ok(format) => Ok(format),
        Err(text) => Err(text@),
    }
}

/// Samples by their sequence, an error by its characters.
pub open spec fn samples_view(res: Result<Vec<i16>, String>) -> Result<Seq<i16>, Seq<char>> {
    match res {
        Ok(samples) => Ok(samples@),
        Err(text) => Err(text@),
    }
}

/// Bytes by their sequence, an error by its characters.
pub open spec fn bytes_view(res: Result<Vec<u8>, String>) -> Result<Seq<u8>, Seq<char>> {
    match res {
        Ok(bytes) => Ok(bytes@),
        Err(text) => Err(text@),
    }
}

/// Reads the header with `hound::WavReader::new` and `spec`.
///
/// Claimed: the result depends on the bytes alone, and a header that is accepted
/// states at least one channel and one bit per sample.
#[verifier::external_body]
fn read_format(wav: &[u8]) -> (res: Result<WavFormat, String>)
    ensures
        format_view(res) == wav_format(wav@),
        res matches Ok(format) ==> format.channels >= 1 && format.bits_per_sample >= 1,
{
    let reader = hound::WavReader::new(Cursor::new(wav)).map_err(|e| e.to_string())?;
    let spec = reader.spec();
    Ok(WavFormat {
        channels: spec.channels,
        sample_rate: spec.sample_rate,
        bits_per_sample: spec.bits_per_sample,
        is_float: spec.sample_format == hound::SampleFormat::Float,
    })
}

/// Reads all samples with `hound::WavReader::into_samples`.
///
/// Claimed: the result depends on the bytes alone, and samples that can be read
/// come with a readable header and in whole frames.
#[verifier::external_body]
fn read_samples(wav: &[u8]) -> (res: Result<Vec<i16>, String>)
    ensures
        samples_view(res) == wav_samples(wav@),
        res matches Ok(samples) ==> (wav_format(wav@) matches Ok(format) && samples@.len()
            % format.channels as nat == 0),
{
    let reader = hound::WavReader::new(Cursor::new(wav)).map_err(|e| e.to_string())?;
    let samples: hound::Result<Vec<i16>> = reader.into_samples::<i16>().collect();
    samples.map_err(|e| e.to_string())
}

/// Opens a writer for the format with `hound::WavWriter::new`.
///
/// Claimed: it is refused exactly where the bit depth is none of the four that can
/// be written.
#[verifier::external_body]
fn open_writer(format: &WavFormat) -> (res: Result<(), String>)
    requires
        format.has_header(),
    ensures
        match res {
            Ok(_) => format.is_supported(),
            Err(text) => !format.is_supported() && text@
                == "The wave format of the file is not supported."@,
        },
{
    let spec = hound::WavSpec {
        channels: format.channels,
        sample_rate: format.sample_rate,
        bits_per_sample: format.bits_per_sample,
        sample_format: if format.is_float { hound::SampleFormat::Float } else { hound::SampleFormat::Int },
    };
    let opened = hound::WavWriter::new(Cursor::new(Vec::new()), spec);
    opened.map(|_| ()).map_err(|e| e.to_string())
}

/// Writes samples with `hound::WavWriter::write_sample` and `finalize`.
///
/// Claimed: the result depends on the format and the samples alone; what is written
/// from whole frames of integer samples that fit reads back as the same.
#[verifier::external_body]
fn write_samples(format: &WavFormat, samples: &Vec<i16>) -> (res: Result<Vec<u8>, String>)
    requires
        format.has_header(),
        format.is_supported(),
        format.holds(samples@.len()),
    ensures
        bytes_view(res) == wav_encoding(*format, samples@),
        match res {
            Ok(wav) => format.round_trips(samples@) ==> reads_as(wav@, *format, samples@),
            Err(_) => !format.round_trips(samples@),
        },
{
    let spec = hound::WavSpec {
        channels: format.channels,
        sample_rate: format.sample_rate,
        bits_per_sample: format.bits_per_sample,
        sample_format: if format.is_float { hound::SampleFormat::Float } else { hound::SampleFormat::Int },
    };
    let mut out = Vec::new();
    let mut writer = hound::WavWriter::new(Cursor::new(&mut out), spec).map_err(|e| e.to_string())?;
    for sample in samples {
        writer.write_sample(*sample).map_err(|e| e.to_string())?;
    }
    writer.finalize().map_err(|e| e.to_string())?;
    Ok(out)
}

/// The samples at `volume`.
pub open spec fn all_scaled(samples: Seq<i16>, volume: Volume) -> Seq<i16> {
    samples.map_values(|s: i16| volume.scaled(s) as i16)
}

/// The WAV data at `volume`, or why there is none: the header, the bit depth or the
/// samples cannot be handled.
pub open spec fn scaled_data(wav: Seq<u8>, volume: Volume) -> Result<Seq<u8>, Seq<char>> {
    match wav_format(wav) {
        Err(text) => Err(text),
        Ok(format) => if !format.is_supported() {
            Err("The wave format of the file is not supported."@)
        } else {
            match wav_samples(wav) {
                Err(text) => Err(text),
                Ok(samples) => wav_encoding(format, all_scaled(samples, volume)),
            }
        },
    }
}

/// Whether the WAV data can be written again: its format has a header, and its
/// samples stay within the length that the header can state.
pub open spec fn is_rewritable(wav: Seq<u8>) -> bool {
    wav_format(wav) matches Ok(format) ==> {
        &&& format.has_header()
        &&& (format.is_supported() && wav_samples(wav) matches Ok(samples)) ==> format.holds(
            wav_samples(wav)->Ok_0.len(),
        )
    }
}

fn scale_all(samples: &Vec<i16>, volume: &Volume) -> (res: Vec<i16>)
    requires
        volume.valid(),
    ensures
        res@ == all_scaled(samples@, *volume),
{
    let mut res: Vec<i16> = Vec::new();
    let mut i: usize = 0;
    while i < samples.len()
        invariant
            i <= samples@.len(),
            volume.valid(),
            res@ == all_scaled(samples@.take(i as int), *volume),
        decreases samples@.len() - i,
    {
        res.push(scale_sample(volume, samples[i]));
        i += 1;
        assert(res@ == all_scaled(samples@.take(i as int), *volume));
    }
    assert(samples@.take(i as int) == samples@);
    res
}

/// The WAV data at `volume`. It keeps the format, and each sample is the one at
/// that volume.
pub fn scale_wav_volume(wav: &[u8], volume: &Volume) -> (res: Result<Vec<u8>, String>)
    requires
        volume.valid(),
        is_rewritable(wav@),
    ensures
        bytes_view(res) == scaled_data(wav@, *volume),
        match (wav_format(wav@), wav_samples(wav@)) {
            (Ok(format), Ok(samples)) => format.round_trips(samples) ==> (res matches Ok(out)
                && reads_as(out@, format, all_scaled(samples, *volume))),
            _ => true,
        },
{
    let format = match read_format(wav) {
        Err(text) => {
            return Err(text);
        },
        Ok(format) => format,
    };
    if let Err(text) = open_writer(&format) {
        return Err(text);
    }
    let samples = match read_samples(wav) {
        Err(text) => {
            return Err(text);
        },
        Ok(samples) => samples,
    };
    let scaled = scale_all(&samples, volume);
    proof {
        if format.round_trips(samples@) {
            assert forall|i: int| 0 <= i < scaled@.len() implies format.fits(
                #[trigger] scaled@[i],
            ) by {
                assert(format.fits(samples@[i]));
                crate::volume::lemma_scaling_never_amplifies(*volume, samples@[i]);
            }
        }
    }
    write_samples(&format, &scaled)
}

/// The WAV data at `volume` where it can be scaled, else as it is.
pub open spec fn scaled_or_same(wav: Seq<u8>, volume: Volume) -> Seq<u8> {
    if is_rewritable(wav) && scaled_data(wav, volume) is Ok {
        scaled_data(wav, volume)->Ok_0
    } else {
        wav
    }
}

/// The WAV data at `volume`; data that cannot be scaled is played as it is.
pub fn scaled_or_source(source: &[u8], volume: &Volume) -> (res: Vec<u8>)
    requires
        volume.valid(),
    ensures
        res@ == scaled_or_same(source@, *volume),
{
    match read_format(source) {
        Err(_) => {},
        Ok(format) => {
            if !format.header_fits() {
                return slice_to_vec(source);
            }
            if let Ok(samples) = read_samples(source) {
                if open_writer(&format).is_ok() && !format.has_room_for(samples.len()) {
                    return slice_to_vec(source);
                }
            }
        },
    }
    match scale_wav_volume(source, volume) {
        Ok(out) => out,
        Err(_) => slice_to_vec(source),
    }
}

/// The embedded sound at `volume`: at a hundred percent as it is.
pub fn scaled_wav(source: &[u8], volume: &Volume) -> (res: Vec<u8>)
    requires
        volume.valid(),
    ensures
        volume.percent() >= 100 ==> res@ == source@,
        volume.percent() < 100 ==> res@ == scaled_or_same(source@, *volume),
{
    if volume_key(volume) >= 100 {
        return slice_to_vec(source);
    }
    scaled_or_source(source, volume)
}

} // verus!
