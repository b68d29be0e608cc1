use vstd::prelude::*;

verus! {

/// The CRC-32/MPEG-2 checksum of `data`.
pub uninterp spec fn crc32_mpeg2_of(data: Seq<u8>) -> u32;

/// Relies on crc::Crc::<u32>::checksum, built with crc::CRC_32_MPEG_2: the
/// checksum is a function of the bytes alone.
#[verifier::external_body]
fn crc32_mpeg2(data: &[u8]) -> (r: u32)
    ensures
        r == crc32_mpeg2_of(data@),
{
    crc::Crc::<u32>::new(&crc::CRC_32_MPEG_2).checksum(data)
}

/// Why an application image was refused.
#[derive(Clone, Copy, Debug, PartialEq, Eq, Structural)]
pub enum ImageError {
    /// The input is too short to hold the boot address word.
    TooShort,
}

/// The little-endian word in the first four bytes of `b`.
pub open spec fn le_word(b: Seq<u8>) -> u32
    recommends
        b.len() >= 4,
{
    (b[0] as u32) | ((b[1] as u32) << 8) | ((b[2] as u32) << 16) | ((b[3] as u32) << 24)
}

/// The four bytes of `x`, most significant first.
pub open spec fn be_bytes(x: u32) -> Seq<u8> {
    seq![(x >> 24) as u8, (x >> 16) as u8, (x >> 8) as u8, x as u8]
}

/// The image before its checksum: the boot address word turned from
/// little-endian to big-endian, then the rest of the input as it is.
pub open spec fn image_body_of(input: Seq<u8>) -> Seq<u8>
    recommends
        input.len() >= 4,
{
    seq![input[3], input[2], input[1], input[0]] + input.subrange(4, input.len() as int)
}

/// The boot address: the little-endian word that opens the input.
pub fn boot_address(input: &Vec<u8>) -> (r: Option<u32>)
    ensures
        r is Some <==> input@.len() >= 4,
        r is Some ==> r == Some(le_word(input@)),
{
    if input.len() < 4 {
        return None;
    }
    Some(
        (input[0] as u32) | ((input[1] as u32) << 8) | ((input[2] as u32) << 16) | ((
        input[3] as u32) << 24),
    )
}

/// The image body for `input`: its boot address stored big-endian, then the
/// rest of the input.
pub fn image_body(input: &Vec<u8>) -> (r: Result<Vec<u8>, ImageError>)
    ensures
        r is Err <==> input@.len() < 4,
        r is Err ==> r == Err::<Vec<u8>, _>(ImageError::TooShort),
        r matches Ok(body) ==> body@ == image_body_of(input@),
{
    if input.len() < 4 {
        return Err(ImageError::TooShort);
    }
    let mut body: Vec<u8> = Vec::new();
    body.push(input[3]);
    body.push(input[2]);
    body.push(input[1]);
    body.push(input[0]);
    let mut i: usize = 4;
    while i < input.len()
        invariant
            4 <= i <= input@.len(),
            body@ == seq![input@[3], input@[2], input@[1], input@[0]] + input@.subrange(
                4,
                i as int,
            ),
        decreases input@.len() - i,
    {
        body.push(input[i]);
        i = i + 1;
        proof {
            assert(input@.subrange(4, i as int) =~= input@.subrange(4, i - 1).push(
                input@[i - 1],
            ));
        }
    }
    Ok(body)
}

/// Close an image body with its checksum `crc`, stored big-endian.
#[verifier::truncate]
pub fn seal_image(body: Vec<u8>, crc: u32) -> (r: Vec<u8>)
    ensures
        r@ == body@ + be_bytes(crc),
{
    let mut image = body;
    image.push((crc >> 24) as u8);
    image.push((crc >> 16) as u8);
    image.push((crc >> 8) as u8);
    image.push(crc as u8);
    proof {
        assert(image@ =~= body@ + be_bytes(crc));
    }
    image
}

/// Turn a firmware binary into a bootable application image: the boot
/// address word turned big-endian, the rest of the binary, then the
/// CRC-32/MPEG-2 of all that, big-endian.
pub fn build_boot_image(input: &Vec<u8>) -> (r: Result<Vec<u8>, ImageError>)
    ensures
        r is Err <==> input@.len() < 4,
        r is Err ==> r == Err::<Vec<u8>, _>(ImageError::TooShort),
        r matches Ok(image) ==> image@ == image_body_of(input@) + be_bytes(
            crc32_mpeg2_of(image_body_of(input@)),
        ),
{
    match image_body(input) {
        Err(e) => Err(e),
        Ok(body) => {
            let crc = crc32_mpeg2(body.as_slice());
            Ok(seal_image(body, crc))
        },
    }
}

} // verus!
