//! The server's output texture: when it is made anew, and under which handle the client knows it.
use vstd::prelude::*;

verus! {

/// The pixel orders of textures, as Direct3D numbers them.
pub const DXGI_FORMAT_B8G8R8A8_UNORM: u32 = 87;

/// See `DXGI_FORMAT_B8G8R8A8_UNORM`.
pub const DXGI_FORMAT_B8G8R8A8_UNORM_SRGB: u32 = 91;

/// See `DXGI_FORMAT_B8G8R8A8_UNORM`.
pub const DXGI_FORMAT_R8G8B8A8_UNORM_SRGB: u32 = 29;

/// The output texture, where there is one.
#[derive(Debug)]
pub struct PoolState<T> {
    pub texture: Option<T>,
    /// The texture's handle in the client's process.
    pub client_handle_value: u64,
    /// The texture's handle in this process.
    pub local_handle_value: u64,
    pub width: u32,
    pub height: u32,
    pub format: u32,
}

/// The pixel order of the output texture. The browser engine's bytes are gamma-encoded, and the
/// texture says so.
pub fn texture_format(rgba: bool) -> (format: u32)
    ensures
        format == if rgba {
            DXGI_FORMAT_R8G8B8A8_UNORM_SRGB
        } else {
            DXGI_FORMAT_B8G8R8A8_UNORM_SRGB
        },
{
    if rgba {
        DXGI_FORMAT_R8G8B8A8_UNORM_SRGB
    } else {
        DXGI_FORMAT_B8G8R8A8_UNORM_SRGB
    }
}

/// Whether the texture has to be made anew for a source of the given size and format.
pub open spec fn outdated<T>(pool: PoolState<T>, width: u32, height: u32, format: u32) -> bool {
    pool.texture is None || pool.width != width || pool.height != height || pool.format != format
}

/// The pool with a new texture.
pub open spec fn renewed<T>(
    texture: T,
    local_handle: u64,
    client_handle: Option<u64>,
    width: u32,
    height: u32,
    format: u32,
) -> PoolState<T> {
    PoolState {
        texture: Some(texture),
        client_handle_value: match client_handle {
            Some(handle) => handle,
            None => local_handle,
        },
        local_handle_value: local_handle,
        width,
        height,
        format,
    }
}

/// The pool without its texture, and the handle that is to be closed, where there is one.
pub open spec fn discarded<T>(pool: PoolState<T>) -> (PoolState<T>, Option<u64>) {
    (
        PoolState {
            texture: None,
            client_handle_value: if pool.local_handle_value != 0 {
                0
            } else {
                pool.client_handle_value
            },
            local_handle_value: 0,
            ..pool
        },
        if pool.local_handle_value != 0 {
            Some(pool.local_handle_value)
        } else {
            None
        },
    )
}

impl<T> PoolState<T> {
    /// A pool without a texture.
    pub fn new() -> (pool: PoolState<T>)
        ensures
            pool.texture is None,
            pool.client_handle_value == 0,
            pool.local_handle_value == 0,
            pool.width == 0,
            pool.height == 0,
            pool.format == DXGI_FORMAT_B8G8R8A8_UNORM,
    {
        PoolState {
            texture: None,
            client_handle_value: 0,
            local_handle_value: 0,
            width: 0,
            height: 0,
            format: DXGI_FORMAT_B8G8R8A8_UNORM,
        }
    }

    /// Whether the texture has to be made anew for a source of the given size and format.
    pub fn need_recreate(&self, width: u32, height: u32, format: u32) -> (needed: bool)
        ensures
            needed == outdated(*self, width, height, format),
    {
        self.texture.is_none() || self.width != width || self.height != height || self.format
            != format
    }

    /// Gives up the texture. The result is the handle that is to be closed, where there is one; the
    /// client closes its own.
    pub fn discard(&mut self) -> (close: Option<u64>)
        ensures
            (*final(self), close) == discarded(*old(self)),
    {
        let mut close: Option<u64> = None;
        if self.local_handle_value != 0 {
            close = Some(self.local_handle_value);
            self.local_handle_value = 0;
            self.client_handle_value = 0;
        }
        self.texture = None;
        close
    }

    /// Takes a new texture. Where there is no client process to duplicate its handle into, the
    /// client is given the handle of this process.
    pub fn store(
        &mut self,
        texture: T,
        local_handle: u64,
        client_handle: Option<u64>,
        width: u32,
        height: u32,
        format: u32,
    )
        ensures
            *final(self) == renewed(texture, local_handle, client_handle, width, height, format),
    {
        let client_handle_value: u64 = match client_handle {
            Some(handle) => handle,
            None => local_handle,
        };
        self.texture = Some(texture);
        self.local_handle_value = local_handle;
        self.client_handle_value = client_handle_value;
        self.width = width;
        self.height = height;
        self.format = format;
    }
}

/// As long as size and format stay, the texture and the client's handle stay.
pub proof fn law_texture_is_made_once<T>(
    texture: T,
    local_handle: u64,
    client_handle: Option<u64>,
    width: u32,
    height: u32,
    format: u32,
)
    ensures
        !outdated(
            renewed(texture, local_handle, client_handle, width, height, format),
            width,
            height,
            format,
        ),
{
}

/// Where anything about the source changes, its width, its height or its format, the texture is made anew.
pub proof fn law_texture_follows_its_source<T>(
    pool: PoolState<T>,
    width: u32,
    height: u32,
    format: u32,
)
    ensures
        pool.texture is None ==> outdated(pool, width, height, format),
        pool.width != width ==> outdated(pool, width, height, format),
        pool.height != height ==> outdated(pool, width, height, format),
        pool.format != format ==> outdated(pool, width, height, format),
        pool.texture is Some && pool.width == width && pool.height == height && pool.format == format
            ==> !outdated(pool, width, height, format),
{
}

/// The client is given the handle that was made for it, and that of this process where none was. The size
/// and the format are those of the new texture.
pub proof fn law_client_gets_a_handle<T>(
    texture: T,
    local_handle: u64,
    client_handle: u64,
    width: u32,
    height: u32,
    format: u32,
)
    ensures
        ({
            let shared = renewed(texture, local_handle, Some(client_handle), width, height, format);
            let own = renewed(texture, local_handle, None, width, height, format);
            &&& shared.client_handle_value == client_handle
            &&& own.client_handle_value == local_handle
            &&& shared.local_handle_value == local_handle
            &&& own.local_handle_value == local_handle
            &&& shared.texture == Some(texture)
            &&& shared.width == width
            &&& shared.height == height
            &&& shared.format == format
        }),
{
}

/// Giving up a texture closes this process's handle to it, once, and takes the client's from the client. The
/// next source gets a new texture, whatever its size.
pub proof fn law_discarded_texture_is_closed_once<T>(
    pool: PoolState<T>,
    width: u32,
    height: u32,
    format: u32,
)
    ensures
        ({
            let (after, close) = discarded(pool);
            &&& pool.local_handle_value != 0 ==> close == Some(pool.local_handle_value)
                && after.client_handle_value == 0
            &&& pool.local_handle_value == 0 ==> close is None
            &&& after.local_handle_value == 0
            &&& discarded(after).1 is None
            &&& outdated(after, width, height, format)
        }),
{
}

} // verus!
