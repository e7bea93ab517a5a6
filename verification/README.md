# Liaison

Liaison serves FMI 3.0 functional mock-up units (FMUs) over a Zenoh network.
A server loads the shared library of an FMU and answers every FMI call as a
Zenoh query on `rpc/<responder id>/<function name>`; a Liaison FMU, built
from the source FMU's model description, carries a client library that
forwards each FMI call of a simulation tool to that server.

## Layout

- `src/` is the verified core, written in Verus:
  - `fmi3`, `proto`, `conversions`, `callbacks`, `client`: FMI status codes,
    their wire form, and the status a caller receives for each reply;
  - `instance_manager`: the server's table of live instances, with laws on
    lookup, removal and counts;
  - `values`, `queryable_handlers`: the conversions of variable values
    between the wire and the FMU, the layout of binary values, and the
    checks on strings bound for the FMU's C interface;
  - `server`: the functions served and the keys they are served on;
  - `fmu_creator`, `fmu_loader`, `utils`: file names and archive entries of
    FMUs and Liaison FMUs;
  - `config`: the `config.json` of a Liaison FMU, with the Zenoh
    configuration it embeds (`metadata.name` set to the model's name, TLS
    files named by their names inside the archive), and the parsing of
    Zenoh configuration files;
  - `metrics`, `latency`: figures of initialization and latency runs.
- `tests/` runs the library on concrete values.
- `app/` is the program around it: the command line, the Zenoh session,
  loading FMU libraries, reading and writing archives, protobuf messages,
  the C interface of the client library, and the initialization benchmark.
