//! The server record that the game reads, and the way it gets into the
//! running game: 520 bytes with the server's public key at the front and its
//! hostname at a fixed offset, encrypted block by block and written byte by
//! byte to a fixed address.

use crate::buffer::{bytes_as_slice, bytes_mut_view, bytes_view, put_bytes, put_slice};
use crate::encrypt::{encrypt_bytes, tea32_encrypt};
use crate::error::{Field, LoaderError};
use crate::text::same_text;
use bytes::{Bytes, BytesMut};
use vstd::prelude::*;
use vstd::utf8::encode_utf8;

verus! {

/// Size of the server record, plain or encrypted.
pub const SERVER_INFO_PATCH_SIZE: usize = 520;

/// Most bytes that the UTF-8 encoded public key may take.
pub const SERVER_INFO_MAX_KEY_SIZE: usize = 430;

/// Most bytes that the UTF-16 encoded hostname may take. The record has
/// room for fewer behind the hostname's offset: see `hostname_fits`.
pub const SERVER_INFO_MAX_HOST_SIZE: usize = 170;

/// Offset in the record at which the hostname starts.
pub const SERVER_INFO_HOST_OFFSET: usize = 432;

/// Address in the game's memory at which the record lies.
pub const SERVER_INFO_ADDRESS: u64 = 0x1_44F4_A5B1;

/// The key under which the game decrypts the record.
pub const SERVER_INFO_TEAENCRYPTION_KEY: [u32; 4] = [
    0x4B69_4CD6,
    0x96AD_A235,
    0xEC91_D9D4,
    0x23F5_62E5,
];

/// The two bytes of a UTF-16 code unit, the low byte first.
pub open spec fn unit_le(unit: int) -> Seq<u8> {
    seq![(unit % 0x100) as u8, (unit / 0x100) as u8]
}

/// The UTF-16 encoding of one character, in little-endian bytes: one code
/// unit for a character of the basic plane, a surrogate pair above it.
pub open spec fn char_utf16_le(c: char) -> Seq<u8> {
    let code = c as u32;
    if code < 0x1_0000 {
        unit_le(code as int)
    } else {
        unit_le(0xD800 + (code - 0x1_0000) / 0x400) + unit_le(0xDC00 + (code - 0x1_0000) % 0x400)
    }
}

/// The UTF-16 encoding of a text, in little-endian bytes.
pub open spec fn utf16_le(text: Seq<char>) -> Seq<u8>
    decreases text.len(),
{
    if text.len() == 0 {
        Seq::empty()
    } else {
        utf16_le(text.drop_last()) + char_utf16_le(text.last())
    }
}

fn push_unit_le(out: &mut Vec<u8>, unit: u32)
    requires
        unit < 0x1_0000,
    ensures
        final(out)@ == old(out)@ + unit_le(unit as int),
{
    out.push((unit % 0x100) as u8);
    out.push((unit / 0x100) as u8);
    assert(out@ =~= old(out)@ + unit_le(unit as int));
}

/// Encodes a text as UTF-16, in little-endian bytes.
pub fn encode_utf16_le(text: &str) -> (bytes: Vec<u8>)
    ensures
        bytes@ == utf16_le(text@),
{
    let mut bytes: Vec<u8> = Vec::new();
    for c in it: text.chars()
        invariant
            it.seq() == text@,
            bytes@ == utf16_le(text@.take(it.index() as int)),
    {
        let code = c as u32;
        let ghost before = bytes@;
        proof {
            vstd::utf8::char_is_scalar(c);
        }
        if code < 0x1_0000 {
            push_unit_le(&mut bytes, code);
        } else {
            push_unit_le(&mut bytes, 0xD800 + (code - 0x1_0000) / 0x400);
            push_unit_le(&mut bytes, 0xDC00 + (code - 0x1_0000) % 0x400);
        }
        proof {
            let done = text@.take(it.index() + 1);
            assert(done.drop_last() == text@.take(it.index() as int));
            assert(done.last() == c);
            assert(bytes@ =~= before + char_utf16_le(c));
        }
    }
    assert(text@.take(text@.len() as int) == text@);
    bytes
}

/// The plain server record for a public key and a hostname, both as the
/// bytes that stand in the record: the key from the front, the hostname from
/// offset 432, zero everywhere else, 520 bytes in all. Of a hostname that
/// reaches beyond the record only the part inside it is there.
pub open spec fn record_layout(key: Seq<u8>, host: Seq<u8>) -> Seq<u8> {
    Seq::new(
        SERVER_INFO_PATCH_SIZE as nat,
        |i: int|
            if i < key.len() {
                key[i]
            } else if SERVER_INFO_HOST_OFFSET <= i < SERVER_INFO_HOST_OFFSET + host.len() {
                host[i - SERVER_INFO_HOST_OFFSET]
            } else {
                0u8
            },
    )
}

/// The input that is too long for the record, if one is: the public key is
/// looked at first.
pub open spec fn oversize_field(key: Seq<u8>, host: Seq<u8>) -> Option<Field> {
    if key.len() > SERVER_INFO_MAX_KEY_SIZE {
        Some(Field::PublicKey)
    } else if host.len() > SERVER_INFO_MAX_HOST_SIZE {
        Some(Field::Hostname)
    } else {
        None
    }
}

/// Whether a hostname, as the bytes that stand in the record, lies in the
/// record whole and leaves the two zero bytes behind it that end it.
pub open spec fn hostname_fits(host: Seq<u8>) -> bool {
    SERVER_INFO_HOST_OFFSET + host.len() + 2 <= SERVER_INFO_PATCH_SIZE
}

/// The record of inputs within their limits is 520 bytes long and zero
/// between the key and the hostname's offset, and from the hostname's end to
/// the record's end.
pub proof fn lemma_record_padding(key: Seq<u8>, host: Seq<u8>)
    requires
        key.len() <= SERVER_INFO_MAX_KEY_SIZE,
        host.len() <= SERVER_INFO_MAX_HOST_SIZE,
    ensures
        record_layout(key, host).len() == SERVER_INFO_PATCH_SIZE,
        record_layout(key, host).len() % 8 == 0,
        forall|i: int|
            key.len() <= i < SERVER_INFO_HOST_OFFSET ==> record_layout(key, host)[i] == 0,
        forall|i: int|
            SERVER_INFO_HOST_OFFSET + host.len() <= i < SERVER_INFO_PATCH_SIZE ==> record_layout(
                key,
                host,
            )[i] == 0,
{
}

/// The record holds its inputs where they belong: the key from the front,
/// and a hostname that fits from the hostname's offset on, whole and with
/// two zero bytes behind it.
pub proof fn lemma_record_holds_inputs(key: Seq<u8>, host: Seq<u8>)
    requires
        key.len() <= SERVER_INFO_MAX_KEY_SIZE,
        hostname_fits(host),
    ensures
        record_layout(key, host).subrange(0, key.len() as int) == key,
        record_layout(key, host).subrange(
            SERVER_INFO_HOST_OFFSET as int,
            SERVER_INFO_HOST_OFFSET + host.len(),
        ) == host,
        record_layout(key, host)[SERVER_INFO_HOST_OFFSET + host.len()] == 0,
        record_layout(key, host)[SERVER_INFO_HOST_OFFSET + host.len() + 1] == 0,
{
}

/// The name under which the system lists the game's process. It is the
/// name of the executable, cut to the 15 characters that Linux keeps.
pub const GAME_PROCESS_NAME: &'static str = "DarkSoulsIII.ex";

/// One process of the system's process table.
#[derive(Clone, Debug)]
pub struct ProcessEntry {
    pub pid: u32,
    pub name: String,
}

/// One byte to be written into the game's memory.
#[derive(Debug, Clone, Copy, PartialEq, Eq, Structural)]
pub struct MemoryWrite {
    pub address: u64,
    pub byte: u8,
}

/// The patch of one game process, as far as it has got: the encrypted record
/// and how many of its bytes have been tried and have been written. The
/// bytes are tried once each, from the first to the last.
pub struct MemoryPatch {
    pid: u32,
    data: Bytes,
    attempted: usize,
    written: usize,
}

impl MemoryPatch {
    #[verifier::type_invariant]
    spec fn inv(&self) -> bool {
        &&& bytes_view(self.data).len() == SERVER_INFO_PATCH_SIZE
        &&& self.written <= self.attempted <= SERVER_INFO_PATCH_SIZE
    }

    /// The process that is patched.
    pub closed spec fn pid(&self) -> u32 {
        self.pid
    }

    /// The bytes to be written, in the order of their addresses.
    pub closed spec fn data(&self) -> Seq<u8> {
        bytes_view(self.data)
    }

    /// The number of bytes that have been tried.
    pub closed spec fn attempted(&self) -> nat {
        self.attempted as nat
    }

    /// The number of bytes that have been written.
    pub closed spec fn written(&self) -> nat {
        self.written as nat
    }

    fn new(pid: u32, data: Bytes) -> (patch: MemoryPatch)
        requires
            bytes_view(data).len() == SERVER_INFO_PATCH_SIZE,
        ensures
            patch.pid() == pid,
            patch.data() == bytes_view(data),
            patch.attempted() == 0,
            patch.written() == 0,
    {
        MemoryPatch { pid, data, attempted: 0, written: 0 }
    }

    /// The process that is patched.
    pub fn target(&self) -> (pid: u32)
        ensures
            pid == self.pid(),
    {
        self.pid
    }

    /// The next byte to write and its address, or `None` once every byte has
    /// been tried. Byte `i` of the record belongs at the record's address
    /// plus `i`, whether the bytes before it were written or not.
    pub fn next_write(&self) -> (next: Option<MemoryWrite>)
        ensures
            self.data().len() == SERVER_INFO_PATCH_SIZE,
            self.written() <= self.attempted() <= SERVER_INFO_PATCH_SIZE,
            match next {
                Some(write) => {
                    &&& self.attempted() < SERVER_INFO_PATCH_SIZE
                    &&& write.address == SERVER_INFO_ADDRESS + self.attempted()
                    &&& write.byte == self.data()[self.attempted() as int]
                },
                None => self.attempted() == SERVER_INFO_PATCH_SIZE,
            },
    {
        proof {
            use_type_invariant(self);
        }
        if self.attempted < SERVER_INFO_PATCH_SIZE {
            let data = bytes_as_slice(&self.data);
            Some(
                MemoryWrite {
                    address: SERVER_INFO_ADDRESS + self.attempted as u64,
                    byte: data[self.attempted],
                },
            )
        } else {
            None
        }
    }

    /// Takes note of how the write of the byte that `next_write` gave went.
    /// The patch moves on to the next byte either way: a byte that could not
    /// be written is not tried again. Once every byte has been tried, a
    /// further note changes nothing.
    pub fn record(&mut self, ok: bool)
        ensures
            final(self).pid() == old(self).pid(),
            final(self).data() == old(self).data(),
            old(self).attempted() < SERVER_INFO_PATCH_SIZE ==> final(self).attempted() == old(
                self,
            ).attempted() + 1 && final(self).written() == old(self).written() + if ok {
                1nat
            } else {
                0nat
            },
            old(self).attempted() >= SERVER_INFO_PATCH_SIZE ==> final(self).attempted() == old(
                self,
            ).attempted() && final(self).written() == old(self).written(),
    {
        proof {
            use_type_invariant(&*self);
        }
        if self.attempted < SERVER_INFO_PATCH_SIZE {
            self.attempted = self.attempted + 1;
            if ok {
                self.written = self.written + 1;
            }
        }
    }

    /// The outcome of the patch: the number of bytes written where that is
    /// the whole record, the failure of a partial write where it is not.
    pub fn finish(&self) -> (r: Result<usize, LoaderError>)
        ensures
            match r {
                Ok(written_len) => written_len == SERVER_INFO_PATCH_SIZE && self.written()
                    == SERVER_INFO_PATCH_SIZE && self.attempted() == SERVER_INFO_PATCH_SIZE,
                Err(e) => self.written() != SERVER_INFO_PATCH_SIZE && e
                    == (LoaderError::PartialWrite {
                    written: self.written() as usize,
                    expected: SERVER_INFO_PATCH_SIZE,
                }),
            },
    {
        proof {
            use_type_invariant(self);
        }
        if self.written != SERVER_INFO_PATCH_SIZE {
            Err(
                LoaderError::PartialWrite {
                    written: self.written,
                    expected: SERVER_INFO_PATCH_SIZE,
                },
            )
        } else {
            Ok(self.written)
        }
    }
}

/// What the preparation of a patch comes to, for the game process `pid` and
/// the server with `hostname` and `pubkey`: a patch that holds the encrypted
/// record and has tried no byte yet, or the input that was too long.
pub open spec fn is_patch_for(
    r: Result<MemoryPatch, LoaderError>,
    pid: u32,
    hostname: Seq<char>,
    pubkey: Seq<char>,
) -> bool {
    match r {
        Ok(patch) => {
            &&& oversize_field(encode_utf8(pubkey), utf16_le(hostname)) is None
            &&& patch.pid() == pid
            &&& patch.data() == encrypt_bytes(
                record_layout(encode_utf8(pubkey), utf16_le(hostname)),
                SERVER_INFO_TEAENCRYPTION_KEY@,
            )
            &&& patch.attempted() == 0
            &&& patch.written() == 0
        },
        Err(e) => e is Oversize && oversize_field(encode_utf8(pubkey), utf16_le(hostname))
            == Some(e->Oversize_0),
    }
}

/// Whether a process of the table bears the name `name`, letter for letter.
pub open spec fn is_named(entry: ProcessEntry, name: Seq<char>) -> bool {
    entry.name@ == name
}

/// Whether some process of the table bears the name `name`.
pub open spec fn game_runs(processes: Seq<ProcessEntry>, name: Seq<char>) -> bool {
    exists|i: int| 0 <= i < processes.len() && is_named(#[trigger] processes[i], name)
}

/// What the search for the game in a process table comes to: the highest
/// pid among the processes that bear `name`, or the failure to find one where
/// none does.
pub open spec fn is_game_pid(
    r: Result<u32, LoaderError>,
    processes: Seq<ProcessEntry>,
    name: Seq<char>,
) -> bool {
    match r {
        Ok(pid) => {
            &&& exists|i: int|
                0 <= i < processes.len() && is_named(processes[i], name) && processes[i].pid
                    == pid
            &&& forall|i: int|
                0 <= i < processes.len() && is_named(processes[i], name) ==> processes[i].pid
                    <= pid
        },
        Err(e) => {
            &&& e == LoaderError::ProcessNotFound
            &&& forall|i: int| 0 <= i < processes.len() ==> !is_named(processes[i], name)
        },
    }
}

/// Finds the running game and prepares the patch of its server record.
pub struct Patches {
    /// The name under which the system lists the game's process.
    pub process_name: String,
}

impl Patches {
    /// Lays out the plain server record for `hostname` and `pubkey`. The key
    /// stands in the record as UTF-8, the hostname as little-endian UTF-16.
    /// An input beyond its limit is refused, never cut down to it.
    pub fn build_record(hostname: &str, pubkey: &str) -> (r: Result<BytesMut, LoaderError>)
        ensures
            match r {
                Ok(record) => {
                    &&& oversize_field(encode_utf8(pubkey@), utf16_le(hostname@)) is None
                    &&& bytes_mut_view(record) == record_layout(
                        encode_utf8(pubkey@),
                        utf16_le(hostname@),
                    )
                    &&& bytes_mut_view(record).len() == SERVER_INFO_PATCH_SIZE
                    &&& forall|i: int|
                        encode_utf8(pubkey@).len() <= i < SERVER_INFO_HOST_OFFSET
                            ==> bytes_mut_view(record)[i] == 0
                    &&& forall|i: int|
                        SERVER_INFO_HOST_OFFSET + utf16_le(hostname@).len() <= i
                            < SERVER_INFO_PATCH_SIZE ==> bytes_mut_view(record)[i] == 0
                },
                Err(e) => e is Oversize && oversize_field(
                    encode_utf8(pubkey@),
                    utf16_le(hostname@),
                ) == Some(e->Oversize_0),
            },
    {
        let host_data = encode_utf16_le(hostname);
        let key_data = pubkey.as_bytes();

        if key_data.len() > SERVER_INFO_MAX_KEY_SIZE {
            return Err(LoaderError::Oversize(Field::PublicKey));
        }
        if host_data.len() > SERVER_INFO_MAX_HOST_SIZE {
            return Err(LoaderError::Oversize(Field::Hostname));
        }
        let mut data_block = BytesMut::with_capacity(SERVER_INFO_PATCH_SIZE);
        put_slice(&mut data_block, key_data);
        put_bytes(&mut data_block, 0, SERVER_INFO_HOST_OFFSET - key_data.len());
        put_slice(&mut data_block, host_data.as_slice());

        data_block.resize(SERVER_INFO_PATCH_SIZE, 0);
        assert(bytes_mut_view(data_block) =~= record_layout(key_data@, host_data@));
        Ok(data_block)
    }

    /// Builds the server record for `hostname` and `pubkey` and encrypts it
    /// under the game's key.
    pub fn encrypt(hostname: &str, pubkey: &str) -> (r: Result<Bytes, LoaderError>)
        ensures
            match r {
                Ok(data_block) => {
                    &&& oversize_field(encode_utf8(pubkey@), utf16_le(hostname@)) is None
                    &&& bytes_view(data_block) == encrypt_bytes(
                        record_layout(encode_utf8(pubkey@), utf16_le(hostname@)),
                        SERVER_INFO_TEAENCRYPTION_KEY@,
                    )
                    &&& bytes_view(data_block).len() == SERVER_INFO_PATCH_SIZE
                },
                Err(e) => e is Oversize && oversize_field(
                    encode_utf8(pubkey@),
                    utf16_le(hostname@),
                ) == Some(e->Oversize_0),
            },
    {
        match Self::build_record(hostname, pubkey) {
            Ok(data_block) => Ok(tea32_encrypt(&data_block, &SERVER_INFO_TEAENCRYPTION_KEY)),
            Err(e) => Err(e),
        }
    }

    /// A finder for the game under its usual process name.
    pub fn new() -> (patches: Patches)
        ensures
            patches.process_name@ == GAME_PROCESS_NAME@,
    {
        Patches { process_name: GAME_PROCESS_NAME.to_owned() }
    }

    /// A finder for the game under the name that the system at hand gives
    /// its process.
    pub fn with_process_name(name: &str) -> (patches: Patches)
        ensures
            patches.process_name@ == name@,
    {
        Patches { process_name: name.to_owned() }
    }

    /// Picks the game out of the process table: of the processes that bear
    /// the game's name, letter for letter, the one with the highest pid. That
    /// is the instance started last, where several run.
    pub fn find_process(&self, processes: &[ProcessEntry]) -> (r: Result<u32, LoaderError>)
        ensures
            is_game_pid(r, processes@, self.process_name@),
    {
        highest_pid(processes, self.process_name.as_str())
    }

    /// Prepares the patch of the game process `pid` for the server with
    /// `hostname` and `pubkey`: the record is built and encrypted, and no byte
    /// of it has been tried yet.
    pub fn patch(pid: u32, hostname: &str, pubkey: &str) -> (r: Result<MemoryPatch, LoaderError>)
        ensures
            is_patch_for(r, pid, hostname@, pubkey@),
    {
        match Self::encrypt(hostname, pubkey) {
            Ok(data_block) => Ok(MemoryPatch::new(pid, data_block)),
            Err(e) => Err(e),
        }
    }
}

/// The highest pid among the processes of the table that bear `name`.
pub fn highest_pid(processes: &[ProcessEntry], name: &str) -> (r: Result<u32, LoaderError>)
    ensures
        is_game_pid(r, processes@, name@),
{
    let mut res: Option<u32> = None;
    for k in 0..processes.len()
        invariant
            match res {
                Some(pid) => {
                    &&& exists|i: int|
                        0 <= i < k && is_named(processes@[i], name@) && processes@[i].pid == pid
                    &&& forall|i: int|
                        0 <= i < k && is_named(processes@[i], name@) ==> processes@[i].pid <= pid
                },
                None => forall|i: int| 0 <= i < k ==> !is_named(processes@[i], name@),
            },
    {
        if same_text(processes[k].name.as_str(), name) {
            let pid = processes[k].pid;
            match res {
                Some(best) if best >= pid => {},
                _ => {
                    res = Some(pid);
                },
            }
        }
    }
    match res {
        Some(pid) => Ok(pid),
        None => Err(LoaderError::ProcessNotFound),
    }
}

} // verus!
