# redox_drivers

Verified core logic of a set of Redox OS drivers and services, written in
Verus:

- `src/inteld`, `src/nvidiad`: GPU buffer objects, GTT/VRAM pools, VRAM and
  core partitions, execbuffer validation, the Intel GAL scheme's handles.
- `src/latency`, `src/upscaling`, `src/vulkan`: latency-reduction modes and
  contexts, frame pacing, upscaling presets, Vulkan versions, extensions and
  the ICD registry.
- `src/lcs`: the Linux compatibility layer: ELF parsing and the auxiliary
  vector, processes, signals, pipes and Unix sockets, syscall numbers and
  their translation.
- `src/net`: BBRv3 metrics, windowed filters and the integer path model,
  ECN, IPv6 link-local addresses, gPTP, BLE mesh relaying, NAT, the XDP fast
  path, ring descriptors, the network scheme's handles, echo (ping) packets
  and the Internet checksum.
- `src/npu`: tensors, command queues, the memory pool, devices and driver.
- `src/nvme_core`, `src/nvme_driver`: run queues and NVMe-oF commands; queue
  pairs, I/O schedulers, the NVMe scheme, configuration and statistics.
- `src/touch`: multi-touch gesture recognition.

`app/` holds what stays outside verification: the processes' file and
device I/O, clocks, and the parts computed in floating point (BBRv3 gains,
latency figures, upscaling resolutions, ping and benchmark statistics).
`tests/` exercises the library on concrete values.
