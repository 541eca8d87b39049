# mini_hypervisor

A small KVM-based x86 hypervisor whose logic is written in Verus and proved against its
contracts.

`src/` is the verified library:

- `memory`, `codec`: guest RAM as a region of bytes with bounds-checked access, and the
  little-endian field encoding every binary format uses.
- `long_mode`, `elf`, `copyout`: boot layouts (identity-mapped page tables, GDT, gates), the
  ELF64 loader, and the fixed guest programs of the scenarios.
- `kvm`: what the host reports (capabilities, CPUID, MSRs) and how the library judges it, the
  guest CPU policy, the in-kernel interrupt-controller snapshots, dirty logging, ioeventfd and
  irqfd registrations with their versioned byte formats.
- `pci`, `mmio`, `portio`: PCI configuration mechanism #1, the virtio-blk device (split ring,
  indirect descriptors, atomic request processing, checkpoints, file pinning), the MMIO and
  port-I/O buses, and the multi-vCPU scenarios' guest programs and checks.
- `portio::scenario`: each multi-vCPU and doorbell scenario as a script of stages and a step
  function from run state and observation to next state and action; the scripts live beside
  each scenario's guest programs.
- `execution`: the bounded run loop's decisions.
- `error`, `text`: the error types and the messages that describe them.

`app/` is the command-line program: it opens `/dev/kvm`, performs the ioctls, maps guest RAM,
runs vCPUs, and hands every answer to the library to judge (`mini-hypervisor probe`,
`lifecycle`, `run-hlt`, `run-debug-port`, `run-cpuid`, `run-long-mode`).

`tests/` exercises the library on concrete values.
