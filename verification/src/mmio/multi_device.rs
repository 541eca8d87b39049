pub mod virtio_blk_atomic_bus;
